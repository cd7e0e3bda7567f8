//! Data-driven progression: rules unlock systems once their requirements hold,
//! evaluated in waves to a fixed point.
use vstd::prelude::*;

use crate::model::{CitySave, CityWorld, MetricTable};
use crate::rules::{rule_fault, RuleSystem, RulesetError};
use crate::table::{has_key, key_set, keys_sorted, KeyedTable, Keyed};
use crate::text::{lemma_lex_asymmetric, lemma_lex_irreflexive, lex_lt};

verus! {

#[derive(Debug, Clone, PartialEq, Eq)]
pub enum Requirement {
    MetricAtLeast { metric: String, value: i64 },
    SystemUnlocked { system: String },
}

#[derive(Debug, Clone, PartialEq, Eq)]
pub struct ProgressionRule {
    pub id: String,
    pub unlocks: String,
    pub all: Vec<Requirement>,
}

/// The systems unlocked so far, in name order.
#[derive(Debug, Clone, PartialEq, Eq)]
pub struct ProgressionState {
    pub unlocked: KeyedTable<String>,
}

/// A metric's recorded value; a metric never recorded counts as zero.
pub open spec fn metric_or_zero(metrics: MetricTable, name: Seq<char>) -> i64 {
    match metrics.metric(name) {
        Some(v) => v,
        None => 0,
    }
}

pub open spec fn requirement_met(
    requirement: Requirement,
    metrics: MetricTable,
    unlocked: Set<Seq<char>>,
) -> bool {
    match requirement {
        Requirement::MetricAtLeast { metric, value } => metric_or_zero(metrics, metric@) >= value,
        Requirement::SystemUnlocked { system } => unlocked.contains(system@),
    }
}

/// Every requirement of the rule holds.
pub open spec fn requirements_met(
    rule: ProgressionRule,
    metrics: MetricTable,
    unlocked: Set<Seq<char>>,
) -> bool {
    forall|i: int|
        0 <= i < rule.all@.len() ==> requirement_met(#[trigger] rule.all@[i], metrics, unlocked)
}

/// The rule would unlock something not yet unlocked, and its requirements hold.
pub open spec fn rule_ready(rule: ProgressionRule, metrics: MetricTable, unlocked: Set<Seq<char>>) -> bool {
    !unlocked.contains(rule.unlocks@) && requirements_met(rule, metrics, unlocked)
}

/// The systems that one wave unlocks: the targets of the rules ready against the
/// snapshot `unlocked`.
pub open spec fn wave_targets(
    rules: Seq<ProgressionRule>,
    metrics: MetricTable,
    unlocked: Set<Seq<char>>,
) -> Set<Seq<char>> {
    Set::new(
        |s: Seq<char>|
            exists|i: int|
                0 <= i < rules.len() && #[trigger] rules[i].unlocks@ == s && rule_ready(
                    rules[i],
                    metrics,
                    unlocked,
                ),
    )
}

/// How many of the first `n` rules have a target not yet unlocked.
pub open spec fn pending_count(rules: Seq<ProgressionRule>, unlocked: Set<Seq<char>>, n: int) -> nat
    decreases n,
{
    if n <= 0 {
        0
    } else {
        pending_count(rules, unlocked, n - 1) + if unlocked.contains(rules[n - 1].unlocks@) {
            0nat
        } else {
            1nat
        }
    }
}

pub proof fn lemma_pending_shrinks(
    rules: Seq<ProgressionRule>,
    u: Set<Seq<char>>,
    v: Set<Seq<char>>,
    n: int,
    k: int,
)
    requires
        u.subset_of(v),
        0 <= n <= rules.len(),
    ensures
        pending_count(rules, v, n) <= pending_count(rules, u, n),
        0 <= k < n && !u.contains(rules[k].unlocks@) && v.contains(rules[k].unlocks@) ==> pending_count(
            rules,
            v,
            n,
        ) < pending_count(rules, u, n),
    decreases n,
{
    if n > 0 {
        lemma_pending_shrinks(rules, u, v, n - 1, k);
    }
}

/// Names in strictly increasing order.
pub open spec fn strictly_ascending(q: Seq<Seq<char>>) -> bool {
    forall|i: int, j: int| 0 <= i < j < q.len() ==> lex_lt(#[trigger] q[i], #[trigger] q[j])
}

/// The names of a finite set in increasing order.
pub open spec fn in_order(s: Set<Seq<char>>) -> Seq<Seq<char>> {
    choose|q: Seq<Seq<char>>| strictly_ascending(q) && q.to_set() == s
}

proof fn lemma_ascending_unique(q1: Seq<Seq<char>>, q2: Seq<Seq<char>>)
    requires
        strictly_ascending(q1),
        strictly_ascending(q2),
        q1.to_set() == q2.to_set(),
    ensures
        q1 == q2,
    decreases q1.len() + q2.len(),
{
    if q1.len() == 0 {
        if q2.len() > 0 {
            assert(q2.to_set().contains(q2[0]));
        }
        assert(q1 =~= q2);
    } else if q2.len() == 0 {
        assert(q1.to_set().contains(q1[0]));
    } else {
        let a = q1[0];
        let b = q2[0];
        assert(q1.to_set().contains(a));
        assert(q2.to_set().contains(b));
        assert(q2.contains(a));
        assert(q1.contains(b));
        let ia = choose|i: int| 0 <= i < q2.len() && q2[i] == a;
        let ib = choose|i: int| 0 <= i < q1.len() && q1[i] == b;
        if ia > 0 && ib > 0 {
            lemma_lex_asymmetric(a, b);
        }
        if ia == 0 {
        } else {
            assert(ib == 0);
        }
        assert(a == b);
        let t1 = q1.drop_first();
        let t2 = q2.drop_first();
        assert(t1.to_set() =~= t2.to_set()) by {
            assert forall|x: Seq<char>| t1.to_set().contains(x) implies t2.to_set().contains(x) by {
                let i = choose|i: int| 0 <= i < t1.len() && t1[i] == x;
                assert(q1[i + 1] == x);
                assert(lex_lt(a, x));
                assert(q2.to_set().contains(x));
                let j = choose|j: int| 0 <= j < q2.len() && q2[j] == x;
                if j == 0 {
                    lemma_lex_irreflexive(a);
                }
                assert(t2[j - 1] == x);
            }
            assert forall|x: Seq<char>| t2.to_set().contains(x) implies t1.to_set().contains(x) by {
                let i = choose|i: int| 0 <= i < t2.len() && t2[i] == x;
                assert(q2[i + 1] == x);
                assert(lex_lt(b, x));
                assert(q1.to_set().contains(x));
                let j = choose|j: int| 0 <= j < q1.len() && q1[j] == x;
                if j == 0 {
                    lemma_lex_irreflexive(b);
                }
                assert(t1[j - 1] == x);
            }
        }
        lemma_ascending_unique(t1, t2);
        assert(q1 =~= seq![a] + t1);
        assert(q2 =~= seq![b] + t2);
    }
}

/// `in_order` gives back any strictly ascending sequence of the set's names.
proof fn lemma_in_order_is(q: Seq<Seq<char>>, s: Set<Seq<char>>)
    requires
        strictly_ascending(q),
        q.to_set() == s,
    ensures
        in_order(s) == q,
{
    assert(exists|x: Seq<Seq<char>>| strictly_ascending(x) && x.to_set() == s) by {
        assert(strictly_ascending(q) && q.to_set() == s);
    }
    let c = in_order(s);
    assert(strictly_ascending(c) && c.to_set() == s);
    lemma_ascending_unique(c, q);
}

/// Runs waves from `unlocked` until a wave unlocks nothing. Gives the final set of
/// unlocked systems and the newly unlocked ones: each wave's names in increasing
/// order, wave after wave.
pub open spec fn progression_run(
    rules: Seq<ProgressionRule>,
    metrics: MetricTable,
    unlocked: Set<Seq<char>>,
) -> (Set<Seq<char>>, Seq<Seq<char>>)
    decreases pending_count(rules, unlocked, rules.len() as int),
{
    let w = wave_targets(rules, metrics, unlocked);
    if w.is_empty() {
        (unlocked, Seq::empty())
    } else {
        proof {
            lemma_wave_shrinks_pending(rules, metrics, unlocked);
        }
        let next = progression_run(rules, metrics, unlocked.union(w));
        (next.0, in_order(w) + next.1)
    }
}

pub proof fn lemma_wave_shrinks_pending(
    rules: Seq<ProgressionRule>,
    metrics: MetricTable,
    unlocked: Set<Seq<char>>,
)
    requires
        !wave_targets(rules, metrics, unlocked).is_empty(),
    ensures
        pending_count(
            rules,
            unlocked.union(wave_targets(rules, metrics, unlocked)),
            rules.len() as int,
        ) < pending_count(rules, unlocked, rules.len() as int),
{
    let w = wave_targets(rules, metrics, unlocked);
    let s = w.choose();
    assert(w.contains(s));
    let k = choose|i: int|
        0 <= i < rules.len() && #[trigger] rules[i].unlocks@ == s && rule_ready(
            rules[i],
            metrics,
            unlocked,
        );
    lemma_pending_shrinks(rules, unlocked, unlocked.union(w), rules.len() as int, k);
}

/// The result of progression does not depend on the order of the rules, nor on
/// repeated rules: only on which rules there are.
pub proof fn law_progression_order_independent(
    rules1: Seq<ProgressionRule>,
    rules2: Seq<ProgressionRule>,
    metrics: MetricTable,
    unlocked: Set<Seq<char>>,
)
    requires
        rules1.to_set() == rules2.to_set(),
    ensures
        progression_run(rules1, metrics, unlocked) == progression_run(rules2, metrics, unlocked),
    decreases pending_count(rules1, unlocked, rules1.len() as int),
{
    let w1 = wave_targets(rules1, metrics, unlocked);
    let w2 = wave_targets(rules2, metrics, unlocked);
    assert(w1 =~= w2) by {
        assert forall|s: Seq<char>| w1.contains(s) implies w2.contains(s) by {
            let i = choose|i: int|
                0 <= i < rules1.len() && #[trigger] rules1[i].unlocks@ == s && rule_ready(
                    rules1[i],
                    metrics,
                    unlocked,
                );
            assert(rules1.to_set().contains(rules1[i]));
            assert(rules2.contains(rules1[i]));
            let j = choose|j: int| 0 <= j < rules2.len() && rules2[j] == rules1[i];
            assert(rules2[j].unlocks@ == s);
        }
        assert forall|s: Seq<char>| w2.contains(s) implies w1.contains(s) by {
            let i = choose|i: int|
                0 <= i < rules2.len() && #[trigger] rules2[i].unlocks@ == s && rule_ready(
                    rules2[i],
                    metrics,
                    unlocked,
                );
            assert(rules2.to_set().contains(rules2[i]));
            assert(rules1.contains(rules2[i]));
            let j = choose|j: int| 0 <= j < rules1.len() && rules1[j] == rules2[i];
            assert(rules1[j].unlocks@ == s);
        }
    }
    if !w1.is_empty() {
        lemma_wave_shrinks_pending(rules1, metrics, unlocked);
        law_progression_order_independent(rules1, rules2, metrics, unlocked.union(w1));
    }
}

/// Progression reaches a fixed point: evaluating again from its result unlocks
/// nothing more.
pub proof fn law_progression_fixed_point(
    rules: Seq<ProgressionRule>,
    metrics: MetricTable,
    unlocked: Set<Seq<char>>,
)
    ensures
        wave_targets(rules, metrics, progression_run(rules, metrics, unlocked).0).is_empty(),
        progression_run(rules, metrics, progression_run(rules, metrics, unlocked).0) == (
            progression_run(rules, metrics, unlocked).0,
            Seq::<Seq<char>>::empty(),
        ),
    decreases pending_count(rules, unlocked, rules.len() as int),
{
    let w = wave_targets(rules, metrics, unlocked);
    if !w.is_empty() {
        lemma_wave_shrinks_pending(rules, metrics, unlocked);
        law_progression_fixed_point(rules, metrics, unlocked.union(w));
    }
}

/// Progression only adds: what was unlocked stays unlocked, and what is newly
/// unlocked is exactly what was added.
pub proof fn law_progression_monotone(
    rules: Seq<ProgressionRule>,
    metrics: MetricTable,
    unlocked: Set<Seq<char>>,
)
    ensures
        unlocked.subset_of(progression_run(rules, metrics, unlocked).0),
        progression_run(rules, metrics, unlocked).1.to_set() == progression_run(
            rules,
            metrics,
            unlocked,
        ).0.difference(unlocked),
    decreases pending_count(rules, unlocked, rules.len() as int),
{
    let w = wave_targets(rules, metrics, unlocked);
    if !w.is_empty() {
        lemma_wave_shrinks_pending(rules, metrics, unlocked);
        law_progression_monotone(rules, metrics, unlocked.union(w));
        let next = progression_run(rules, metrics, unlocked.union(w));
        let q = in_order(w);
        lemma_in_order_exists(w, rules, metrics, unlocked);
        assert((q + next.1).to_set() =~= next.0.difference(unlocked)) by {
            vstd::seq_lib::seq_to_set_distributes_over_add(q, next.1);
            assert forall|s: Seq<char>| w.contains(s) implies !unlocked.contains(s) by {
                let i = choose|i: int|
                    0 <= i < rules.len() && #[trigger] rules[i].unlocks@ == s && rule_ready(
                        rules[i],
                        metrics,
                        unlocked,
                    );
            }
        }
    } else {
        assert(Seq::<Seq<char>>::empty().to_set() =~= unlocked.difference(unlocked));
    }
}

/// A wave's names can be listed in increasing order.
proof fn lemma_in_order_exists(
    w: Set<Seq<char>>,
    rules: Seq<ProgressionRule>,
    metrics: MetricTable,
    unlocked: Set<Seq<char>>,
)
    requires
        w == wave_targets(rules, metrics, unlocked),
    ensures
        strictly_ascending(in_order(w)),
        in_order(w).to_set() == w,
{
    let t = build_ordered(w, rules, rules.len() as int);
    lemma_build_ordered(w, rules, rules.len() as int);
    assert(t.to_set() =~= w) by {
        assert forall|s: Seq<char>| t.to_set().contains(s) implies w.contains(s) by {}
        assert forall|s: Seq<char>| w.contains(s) implies t.to_set().contains(s) by {
            let i = choose|i: int|
                0 <= i < rules.len() && #[trigger] rules[i].unlocks@ == s && rule_ready(
                    rules[i],
                    metrics,
                    unlocked,
                );
        }
    }
    lemma_in_order_is(t, w);
}

/// The names of `w` that are targets of the first `n` rules, in increasing order.
spec fn build_ordered(w: Set<Seq<char>>, rules: Seq<ProgressionRule>, n: int) -> Seq<Seq<char>>
    decreases n,
{
    if n <= 0 {
        Seq::empty()
    } else {
        let prev = build_ordered(w, rules, n - 1);
        let s = rules[n - 1].unlocks@;
        if w.contains(s) && !prev.contains(s) {
            insert_ascending(prev, s)
        } else {
            prev
        }
    }
}

/// Position `p` splits `q` into names below `s` and names above it.
spec fn splits(q: Seq<Seq<char>>, s: Seq<char>, p: int) -> bool {
    &&& 0 <= p <= q.len()
    &&& forall|i: int| 0 <= i < p ==> lex_lt(#[trigger] q[i], s)
    &&& forall|i: int| p <= i < q.len() ==> lex_lt(s, #[trigger] q[i])
}

spec fn insert_ascending(q: Seq<Seq<char>>, s: Seq<char>) -> Seq<Seq<char>> {
    let p = choose|p: int| #[trigger] splits(q, s, p);
    q.insert(p, s)
}

proof fn lemma_insert_ascending(q: Seq<Seq<char>>, s: Seq<char>)
    requires
        strictly_ascending(q),
        !q.contains(s),
    ensures
        strictly_ascending(insert_ascending(q, s)),
        insert_ascending(q, s).to_set() == q.to_set().insert(s),
{
    let p = lemma_insertion_point(q, s, 0);
    assert(splits(q, s, p));
    let r = insert_ascending(q, s);
    let pp = choose|p: int| #[trigger] splits(q, s, p);
    assert(r == q.insert(pp, s));
    assert forall|i: int, j: int| 0 <= i < j < r.len() implies lex_lt(#[trigger] r[i], #[trigger] r[j]) by {
        if j < pp {
            assert(r[i] == q[i] && r[j] == q[j]);
        } else if j == pp {
            assert(r[i] == q[i]);
        } else if i < pp {
            assert(r[i] == q[i] && r[j] == q[j - 1]);
            crate::text::lemma_lex_transitive(q[i], s, q[j - 1]);
        } else if i == pp {
            assert(r[j] == q[j - 1]);
        } else {
            assert(r[i] == q[i - 1] && r[j] == q[j - 1]);
        }
    }
    assert(r.to_set() =~= q.to_set().insert(s)) by {
        assert forall|x: Seq<char>| #[trigger] r.to_set().contains(x) == q.to_set().insert(s).contains(x) by {
            if r.to_set().contains(x) {
                let i = choose|i: int| 0 <= i < r.len() && r[i] == x;
                if i < pp {
                    assert(q[i] == x);
                } else if i > pp {
                    assert(q[i - 1] == x);
                }
            }
            if q.to_set().contains(x) {
                let i = choose|i: int| 0 <= i < q.len() && q[i] == x;
                if i < pp {
                    assert(r[i] == x);
                } else {
                    assert(r[i + 1] == x);
                }
            }
            if x == s {
                assert(r[pp] == s);
            }
        }
    }
}

/// A position that splits `q` into names below `s` and names above it exists.
proof fn lemma_insertion_point(q: Seq<Seq<char>>, s: Seq<char>, start: int) -> (p: int)
    requires
        strictly_ascending(q),
        !q.contains(s),
        0 <= start <= q.len(),
        forall|i: int| 0 <= i < start ==> lex_lt(#[trigger] q[i], s),
    ensures
        0 <= p <= q.len(),
        forall|i: int| 0 <= i < p ==> lex_lt(#[trigger] q[i], s),
        forall|i: int| p <= i < q.len() ==> lex_lt(s, #[trigger] q[i]),
    decreases q.len() - start,
{
    if start == q.len() {
        start
    } else {
        crate::text::lemma_lex_total(q[start], s);
        assert(q[start] != s);
        if lex_lt(q[start], s) {
            lemma_insertion_point(q, s, start + 1)
        } else {
            assert forall|i: int| start <= i < q.len() implies lex_lt(s, #[trigger] q[i]) by {
                if i > start {
                    crate::text::lemma_lex_transitive(s, q[start], q[i]);
                }
            }
            start
        }
    }
}

proof fn lemma_build_ordered(w: Set<Seq<char>>, rules: Seq<ProgressionRule>, n: int)
    requires
        0 <= n <= rules.len(),
    ensures
        strictly_ascending(build_ordered(w, rules, n)),
        forall|s: Seq<char>| #[trigger]
            build_ordered(w, rules, n).to_set().contains(s) <==> (w.contains(s) && exists|i: int|
                0 <= i < n && #[trigger] rules[i].unlocks@ == s),
    decreases n,
{
    if n > 0 {
        lemma_build_ordered(w, rules, n - 1);
        let prev = build_ordered(w, rules, n - 1);
        let s = rules[n - 1].unlocks@;
        if w.contains(s) && !prev.contains(s) {
            lemma_insert_ascending(prev, s);
        }
        assert forall|x: Seq<char>| #[trigger]
            build_ordered(w, rules, n).to_set().contains(x) <==> (w.contains(x) && exists|i: int|
                0 <= i < n && #[trigger] rules[i].unlocks@ == x) by {
            if w.contains(x) && exists|i: int| 0 <= i < n && #[trigger] rules[i].unlocks@ == x {
                let i = choose|i: int| 0 <= i < n && #[trigger] rules[i].unlocks@ == x;
                if i < n - 1 {
                    assert(prev.to_set().contains(x));
                } else {
                    if prev.contains(x) {
                        assert(prev.to_set().contains(x));
                    }
                }
            }
            if prev.to_set().contains(x) {
                let i = choose|i: int| 0 <= i < n - 1 && #[trigger] rules[i].unlocks@ == x;
                assert(0 <= i < n);
            }
        }
    } else {
        assert(build_ordered(w, rules, n).to_set() =~= Set::<Seq<char>>::empty());
    }
}

impl Default for ProgressionState {
    fn default() -> (s: Self)
        ensures
            s.unlocked.entries().len() == 0,
    {
        ProgressionState::new()
    }
}

impl ProgressionState {
    pub fn new() -> (s: Self)
        ensures
            s.unlocked.entries().len() == 0,
    {
        ProgressionState { unlocked: KeyedTable::new() }
    }

    /// Evaluates the rules to a fixed point in waves. Each wave reads one snapshot
    /// of what is unlocked, so the result does not depend on the order of the
    /// rules. Gives back the newly unlocked systems, each wave in name order.
    pub fn evaluate(&mut self, rules: &Vec<ProgressionRule>, metrics: &MetricTable) -> (newly:
        Vec<String>)
        ensures
            final(self).unlocked.spec_keys() == progression_run(
                rules@,
                *metrics,
                old(self).unlocked.spec_keys(),
            ).0,
            newly@.map_values(|s: String| s@) == progression_run(
                rules@,
                *metrics,
                old(self).unlocked.spec_keys(),
            ).1,
    {
        let ghost start = self.unlocked.spec_keys();
        let mut newly: Vec<String> = Vec::new();
        loop
            invariant
                progression_run(rules@, *metrics, start).0 == progression_run(
                    rules@,
                    *metrics,
                    self.unlocked.spec_keys(),
                ).0,
                progression_run(rules@, *metrics, start).1 == newly@.map_values(|s: String| s@)
                    + progression_run(rules@, *metrics, self.unlocked.spec_keys()).1,
            ensures
                self.unlocked.spec_keys() == progression_run(rules@, *metrics, start).0,
                newly@.map_values(|s: String| s@) == progression_run(rules@, *metrics, start).1,
            decreases pending_count(rules@, self.unlocked.spec_keys(), rules@.len() as int),
        {
            let ghost current = self.unlocked.spec_keys();
            let wave = wave_of(rules, metrics, &self.unlocked);
            if wave.is_empty() {
                proof {
                    assert(wave_targets(rules@, *metrics, current) =~= Set::<Seq<char>>::empty()) by {
                        assert forall|s: Seq<char>| !wave_targets(rules@, *metrics, current).contains(s) by {
                            if wave.spec_has(s) {
                                let i = choose|i: int|
                                    0 <= i < wave.entries().len() && #[trigger] wave.entries()[i].key() == s;
                            }
                        }
                    }
                    assert(progression_run(rules@, *metrics, current) == (current, Seq::<Seq<char>>::empty()));
                    assert(newly@.map_values(|s: String| s@) + Seq::<Seq<char>>::empty() =~= newly@.map_values(|s: String| s@));
                }
                break;
            }
            let ghost w = wave_targets(rules@, *metrics, current);
            proof {
                use_type_invariant(&wave);
                wave.lemma_sorted();
                lemma_wave_in_order(wave, w);
                assert(!w.is_empty()) by {
                    assert(wave.spec_has(wave.entries()[0].key()));
                }
                lemma_wave_shrinks_pending(rules@, *metrics, current);
            }
            let names = wave.as_vec();
            let ghost before_newly = newly@.map_values(|s: String| s@);
            let mut j: usize = 0;
            while j < names.len()
                invariant
                    0 <= j <= names@.len(),
                    names@ == wave.entries(),
                    in_order(w) == names@.map_values(|s: String| s@),
                    forall|x: Seq<char>| #[trigger] w.contains(x) ==> !current.contains(x),
                    forall|x: Seq<char>|
                        #[trigger] self.unlocked.spec_has(x) <==> (current.contains(x) || exists|
                            i: int,
                        |
                            0 <= i < j && names@[i]@ == x),
                    newly@.map_values(|s: String| s@) == before_newly + names@.take(
                        j as int,
                    ).map_values(|s: String| s@),
                decreases names@.len() - j,
            {
                let name = names[j].clone();
                let ghost before = self.unlocked;
                self.unlocked.insert(name);
                let ghost nb = newly@;
                newly.push(names[j].clone());
                proof {
                    assert forall|x: Seq<char>|
                        #[trigger] self.unlocked.spec_has(x) <==> (current.contains(x) || exists|
                            i: int,
                        |
                            0 <= i < j + 1 && names@[i]@ == x) by {
                        assert(self.unlocked.spec_has(x) == (self.unlocked.spec_lookup(x) is Some));
                        assert(before.spec_has(x) == (before.spec_lookup(x) is Some));
                        if x != names@[j as int]@ {
                            if exists|i: int| 0 <= i < j + 1 && names@[i]@ == x {
                                let i = choose|i: int| 0 <= i < j + 1 && names@[i]@ == x;
                                assert(i < j);
                            }
                        }
                    }
                    assert(names@.take(j + 1).map_values(|s: String| s@) =~= names@.take(
                        j as int,
                    ).map_values(|s: String| s@).push(names@[j as int]@));
                    assert(newly@.map_values(|s: String| s@) =~= nb.map_values(|s: String| s@).push(
                        names@[j as int]@,
                    ));
                }
                j = j + 1;
            }
            proof {
                assert(names@.take(names@.len() as int) =~= names@);
                assert(self.unlocked.spec_keys() =~= current.union(w)) by {
                    assert forall|x: Seq<char>| #[trigger]
                        self.unlocked.spec_keys().contains(x) == current.union(w).contains(x) by {
                        assert(self.unlocked.spec_keys().contains(x) == self.unlocked.spec_has(x));
                        if exists|i: int| 0 <= i < names@.len() && names@[i]@ == x {
                            let i = choose|i: int| 0 <= i < names@.len() && names@[i]@ == x;
                            assert(in_order(w)[i] == x);
                            assert(in_order(w).to_set().contains(x));
                        }
                        if w.contains(x) && !current.contains(x) {
                            assert(in_order(w).to_set().contains(x));
                            let i = choose|i: int| 0 <= i < in_order(w).len() && in_order(w)[i] == x;
                            assert(names@[i]@ == x);
                        }
                    }
                }
                assert(newly@.map_values(|s: String| s@) + progression_run(
                    rules@,
                    *metrics,
                    current.union(w),
                ).1 =~= before_newly + (in_order(w) + progression_run(
                    rules@,
                    *metrics,
                    current.union(w),
                ).1));
            }
        }
        newly
    }
}

impl CitySave {
    /// Runs the progression system against the world's metrics. The rules are
    /// validated first and an invalid ruleset changes nothing; a disabled
    /// progression system is skipped. Only the unlocked systems change.
    pub fn evaluate_progression(&mut self) -> (r: Result<Vec<String>, RulesetError>)
        ensures
            old(self).ruleset.validation_outcome(
                match r {
                    Ok(_) => Ok(()),
                    Err(e) => Err(e),
                },
            ),
            r is Err ==> *final(self) == *old(self),
            r is Ok && !old(self).ruleset.spec_enabled(RuleSystem::Progression) ==> r->Ok_0@.len()
                == 0 && *final(self) == *old(self),
            r is Ok && old(self).ruleset.spec_enabled(RuleSystem::Progression) ==> {
                let run = progression_run(
                    old(self).ruleset.progression.config.rules@,
                    old(self).world.metrics,
                    old(self).world.progression.unlocked.spec_keys(),
                );
                &&& final(self).world.progression.unlocked.spec_keys() == run.0
                &&& r->Ok_0@.map_values(|s: String| s@) == run.1
                &&& *final(self) == (CitySave {
                    world: CityWorld { progression: final(self).world.progression, ..old(self).world },
                    ..*old(self)
                })
            },
    {
        match self.ruleset.validate() {
            Ok(()) => {},
            Err(e) => return Err(e),
        }
        if !self.ruleset.is_enabled(RuleSystem::Progression) {
            return Ok(Vec::new());
        }
        let newly = self.world.progression.evaluate(
            &self.ruleset.progression.config.rules,
            &self.world.metrics,
        );
        Ok(newly)
    }
}

/// Whether every requirement of `rule` holds against `metrics` and `unlocked`.
fn requirements_hold(rule: &ProgressionRule, metrics: &MetricTable, unlocked: &KeyedTable<String>) -> (r:
    bool)
    ensures
        r == requirements_met(*rule, *metrics, unlocked.spec_keys()),
{
    let mut i: usize = 0;
    while i < rule.all.len()
        invariant
            0 <= i <= rule.all@.len(),
            forall|k: int|
                0 <= k < i ==> requirement_met(
                    #[trigger] rule.all@[k],
                    *metrics,
                    unlocked.spec_keys(),
                ),
        decreases rule.all@.len() - i,
    {
        if !requirement_holds(&rule.all[i], metrics, unlocked) {
            return false;
        }
        i = i + 1;
    }
    true
}

fn requirement_holds(
    requirement: &Requirement,
    metrics: &MetricTable,
    unlocked: &KeyedTable<String>,
) -> (r: bool)
    ensures
        r == requirement_met(*requirement, *metrics, unlocked.spec_keys()),
{
    match requirement {
        Requirement::MetricAtLeast { metric, value } => {
            let current = match metrics.metric_value(metric.as_str()) {
                Some(v) => v,
                None => 0,
            };
            current >= *value
        },
        Requirement::SystemUnlocked { system } => unlocked.contains_key(system.as_str()),
    }
}

/// The targets of the rules that are ready against the snapshot `unlocked`.
fn wave_of(rules: &Vec<ProgressionRule>, metrics: &MetricTable, unlocked: &KeyedTable<String>) -> (w:
    KeyedTable<String>)
    ensures
        forall|s: Seq<char>| #[trigger]
            w.spec_has(s) == wave_targets(rules@, *metrics, unlocked.spec_keys()).contains(s),
{
    let ghost snap = unlocked.spec_keys();
    let mut wave: KeyedTable<String> = KeyedTable::new();
    let mut i: usize = 0;
    while i < rules.len()
        invariant
            0 <= i <= rules@.len(),
            snap == unlocked.spec_keys(),
            forall|s: Seq<char>| #[trigger]
                wave.spec_has(s) == exists|k: int|
                    0 <= k < i && #[trigger] rules@[k].unlocks@ == s && rule_ready(
                        rules@[k],
                        *metrics,
                        snap,
                    ),
        decreases rules@.len() - i,
    {
        let rule = &rules[i];
        let ready = !unlocked.contains_key(rule.unlocks.as_str()) && requirements_hold(
            rule,
            metrics,
            unlocked,
        );
        assert(ready == rule_ready(*rule, *metrics, snap));
        let ghost before = wave;
        if ready {
            wave.insert(rule.unlocks.clone());
        }
        proof {
            assert forall|s: Seq<char>| #[trigger]
                wave.spec_has(s) == exists|k: int|
                    0 <= k < i + 1 && #[trigger] rules@[k].unlocks@ == s && rule_ready(
                        rules@[k],
                        *metrics,
                        snap,
                    ) by {
                assert(wave.spec_has(s) == (wave.spec_lookup(s) is Some));
                assert(before.spec_has(s) == (before.spec_lookup(s) is Some));
                if exists|k: int|
                    0 <= k < i + 1 && #[trigger] rules@[k].unlocks@ == s && rule_ready(
                        rules@[k],
                        *metrics,
                        snap,
                    ) {
                    let k = choose|k: int|
                        0 <= k < i + 1 && #[trigger] rules@[k].unlocks@ == s && rule_ready(
                            rules@[k],
                            *metrics,
                            snap,
                        );
                    if k < i {
                        assert(before.spec_has(s));
                    }
                }
                if ready && s == rule.unlocks@ {
                    assert(rules@[i as int].unlocks@ == s);
                }
            }
        }
        i = i + 1;
    }
    wave
}

/// A wave table lists the wave's names in increasing order.
proof fn lemma_wave_in_order(wave: KeyedTable<String>, w: Set<Seq<char>>)
    requires
        keys_sorted(wave.entries()),
        forall|s: Seq<char>| #[trigger] wave.spec_has(s) == w.contains(s),
    ensures
        in_order(w) == wave.entries().map_values(|s: String| s@),
        in_order(w).to_set() == w,
{
    let q = wave.entries().map_values(|s: String| s@);
    assert forall|i: int, j: int| 0 <= i < j < q.len() implies lex_lt(#[trigger] q[i], #[trigger] q[j]) by {
        assert(q[i] == wave.entries()[i].key());
        assert(q[j] == wave.entries()[j].key());
    }
    assert(q.to_set() =~= w) by {
        assert forall|s: Seq<char>| #[trigger] q.to_set().contains(s) == w.contains(s) by {
            if q.to_set().contains(s) {
                let i = choose|i: int| 0 <= i < q.len() && q[i] == s;
                assert(wave.entries()[i].key() == s);
                assert(wave.spec_has(s));
            }
            if w.contains(s) {
                assert(wave.spec_has(s));
                let i = choose|i: int|
                    0 <= i < wave.entries().len() && #[trigger] wave.entries()[i].key() == s;
                assert(q[i] == s);
            }
        }
    }
    lemma_in_order_is(q, w);
}

/// A met requirement stays met when more systems are unlocked.
proof fn lemma_requirement_met_grows(
    requirement: Requirement,
    metrics: MetricTable,
    u: Set<Seq<char>>,
    v: Set<Seq<char>>,
)
    requires
        u.subset_of(v),
        requirement_met(requirement, metrics, u),
    ensures
        requirement_met(requirement, metrics, v),
{
}

/// Every system that progression unlocks is the target of a rule all of whose
/// requirements hold: each metric requirement is reached by the metrics and each
/// system requirement is unlocked at the end. A rule with an unmet requirement
/// unlocks nothing by itself.
pub proof fn law_unlocks_need_every_requirement(
    rules: Seq<ProgressionRule>,
    metrics: MetricTable,
    unlocked: Set<Seq<char>>,
)
    ensures
        forall|x: Seq<char>|
            #![trigger progression_run(rules, metrics, unlocked).0.contains(x)]
            progression_run(rules, metrics, unlocked).0.contains(x) && !unlocked.contains(x)
                ==> exists|i: int|
                0 <= i < rules.len() && #[trigger] rules[i].unlocks@ == x && forall|j: int|
                    0 <= j < rules[i].all@.len() ==> match #[trigger] rules[i].all@[j] {
                        Requirement::MetricAtLeast { metric, value } => metric_or_zero(
                            metrics,
                            metric@,
                        ) >= value,
                        Requirement::SystemUnlocked { system } => progression_run(
                            rules,
                            metrics,
                            unlocked,
                        ).0.contains(system@),
                    },
    decreases pending_count(rules, unlocked, rules.len() as int),
{
    let w = wave_targets(rules, metrics, unlocked);
    let fin = progression_run(rules, metrics, unlocked).0;
    if !w.is_empty() {
        lemma_wave_shrinks_pending(rules, metrics, unlocked);
        let next = unlocked.union(w);
        law_unlocks_need_every_requirement(rules, metrics, next);
        law_progression_monotone(rules, metrics, next);
        assert(fin == progression_run(rules, metrics, next).0);
        assert forall|x: Seq<char>|
            #![trigger progression_run(rules, metrics, unlocked).0.contains(x)]
            fin.contains(x) && !unlocked.contains(x) implies exists|i: int|
                0 <= i < rules.len() && #[trigger] rules[i].unlocks@ == x && forall|j: int|
                    0 <= j < rules[i].all@.len() ==> match #[trigger] rules[i].all@[j] {
                        Requirement::MetricAtLeast { metric, value } => metric_or_zero(
                            metrics,
                            metric@,
                        ) >= value,
                        Requirement::SystemUnlocked { system } => fin.contains(system@),
                    } by {
            if w.contains(x) {
                let i = choose|i: int|
                    0 <= i < rules.len() && #[trigger] rules[i].unlocks@ == x && rule_ready(
                        rules[i],
                        metrics,
                        unlocked,
                    );
                assert forall|j: int| 0 <= j < rules[i].all@.len() implies match #[trigger] rules[i].all@[j] {
                    Requirement::MetricAtLeast { metric, value } => metric_or_zero(metrics, metric@)
                        >= value,
                    Requirement::SystemUnlocked { system } => fin.contains(system@),
                } by {
                    assert(requirement_met(rules[i].all@[j], metrics, unlocked));
                    assert(unlocked.subset_of(fin));
                    lemma_requirement_met_grows(rules[i].all@[j], metrics, unlocked, fin);
                }
            } else {
                assert(!next.contains(x));
                assert(progression_run(rules, metrics, next).0.contains(x));
            }
        }
    }
}

/// Progression leaves no rule behind: every rule all of whose requirements hold
/// at the end (each metric reached, each required system unlocked) has its
/// target unlocked at the end.
pub proof fn law_rules_met_at_the_end_are_unlocked(
    rules: Seq<ProgressionRule>,
    metrics: MetricTable,
    unlocked: Set<Seq<char>>,
    i: int,
)
    requires
        0 <= i < rules.len(),
        forall|j: int|
            0 <= j < rules[i].all@.len() ==> match #[trigger] rules[i].all@[j] {
                Requirement::MetricAtLeast { metric, value } => metric_or_zero(metrics, metric@)
                    >= value,
                Requirement::SystemUnlocked { system } => progression_run(
                    rules,
                    metrics,
                    unlocked,
                ).0.contains(system@),
            },
    ensures
        progression_run(rules, metrics, unlocked).0.contains(rules[i].unlocks@),
{
    let fin = progression_run(rules, metrics, unlocked).0;
    law_progression_fixed_point(rules, metrics, unlocked);
    if !fin.contains(rules[i].unlocks@) {
        assert(requirements_met(rules[i], metrics, fin)) by {
            assert forall|j: int| 0 <= j < rules[i].all@.len() implies requirement_met(
                #[trigger] rules[i].all@[j],
                metrics,
                fin,
            ) by {
                assert(match rules[i].all@[j] {
                    Requirement::MetricAtLeast { metric, value } => metric_or_zero(metrics, metric@)
                        >= value,
                    Requirement::SystemUnlocked { system } => fin.contains(system@),
                });
            }
        }
        assert(rule_ready(rules[i], metrics, fin));
        assert(wave_targets(rules, metrics, fin).contains(rules[i].unlocks@));
    }
}

} // verus!
