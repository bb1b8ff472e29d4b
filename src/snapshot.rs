//! Gas snapshots: the gas that each test method used, and the comparison of
//! two snapshots.

use crate::gas_report::{lemma_sum_bound, sum};
use crate::tester::{TestResult, TestResultType};
use vstd::prelude::*;

verus! {

/// A snapshot entry: the qualified name of a test method, the gas its message
/// used, and whether the test passed.
#[derive(Clone, Debug, PartialEq, Eq)]
pub struct MethodCost {
    pub name: String,
    pub cost: u64,
    pub passed: bool,
}

/// An entry as values.
pub type CostView = (Seq<char>, u64, bool);

pub open spec fn cost_views(v: Seq<MethodCost>) -> Seq<CostView> {
    v.map_values(|c: MethodCost| (c.name@, c.cost, c.passed))
}

/// The entries of the results of testing the actor named `actor`: one per
/// result whose message ran to an exit code, named `actor::method`.
pub open spec fn entries_of(actor: Seq<char>, results: Seq<TestResult>) -> Seq<CostView>
    decreases results.len(),
{
    if results.len() == 0 {
        Seq::empty()
    } else {
        let rest = entries_of(actor, results.drop_last());
        let r = results.last();
        let name = actor + "::"@ + r.spec_method().spec_name();
        match r.spec_ret() {
            TestResultType::Passed(x) => rest.push((name, x.gas_used, true)),
            TestResultType::Failed(x) => rest.push((name, x.gas_used, false)),
            TestResultType::Erred(_) => rest,
        }
    }
}

/// The snapshot entries of the results of testing the actor named `actor`.
pub fn snapshot_entries(actor: &str, results: &[TestResult]) -> (r: Vec<MethodCost>)
    ensures
        cost_views(r@) == entries_of(actor@, results@),
{
    let mut r: Vec<MethodCost> = Vec::new();
    let mut i: usize = 0;
    while i < results.len()
        invariant
            0 <= i <= results@.len(),
            cost_views(r@) == entries_of(actor@, results@.subrange(0, i as int)),
        decreases results@.len() - i,
    {
        proof {
            assert(results@.subrange(0, i + 1).drop_last() =~= results@.subrange(0, i as int));
        }
        let res = &results[i];
        let (cost, passed) = match res.ret() {
            TestResultType::Passed(x) => (x.gas_used, true),
            TestResultType::Failed(x) => (x.gas_used, false),
            TestResultType::Erred(_) => {
                i = i + 1;
                continue;
            },
        };
        let mut name = actor.to_string();
        name.append("::");
        name.append(res.method().name());
        let ghost before = r@;
        r.push(MethodCost { name, cost, passed });
        proof {
            assert(cost_views(r@) =~= cost_views(before).push((r@.last().name@, cost, passed)));
        }
        i = i + 1;
    }
    proof {
        assert(results@.subrange(0, results@.len() as int) =~= results@);
    }
    r
}

/// How the gas of a method changed from the former snapshot to the new one.
#[derive(Clone, Copy, Debug, PartialEq, Eq, Structural)]
pub enum GasChange {
    Same,
    More { by: u64 },
    Less { by: u64 },
}

pub open spec fn change_of(former: u64, new: u64) -> GasChange {
    if former == new {
        GasChange::Same
    } else if former < new {
        GasChange::More { by: (new - former) as u64 }
    } else {
        GasChange::Less { by: (former - new) as u64 }
    }
}

/// The cost of the last entry of `former` named `name`.
pub open spec fn former_cost(former: Seq<CostView>, name: Seq<char>) -> Option<u64>
    decreases former.len(),
{
    if former.len() == 0 {
        None
    } else if former.last().0 == name {
        Some(former.last().1)
    } else {
        former_cost(former.drop_last(), name)
    }
}

/// One compared method: its name, its former cost, its new cost and the change.
pub type DiffView = (Seq<char>, u64, u64, GasChange);

/// The comparison of new entries with a former snapshot: each new entry
/// found there is compared; an entry not found is skipped, or, when
/// `check` is set, ends the comparison and is reported as missing.
pub open spec fn compared(new: Seq<CostView>, former: Seq<CostView>, check: bool) -> (Seq<DiffView>, Option<Seq<char>>)
    decreases new.len(),
{
    if new.len() == 0 {
        (Seq::empty(), None)
    } else {
        let (d, missing) = compared(new.drop_last(), former, check);
        let m = new.last();
        if missing is Some {
            (d, missing)
        } else {
            match former_cost(former, m.0) {
                Some(c) => (d.push((m.0, c, m.1, change_of(c, m.1))), None),
                None => if check { (d, Some(m.0)) } else { (d, None) },
            }
        }
    }
}

pub open spec fn former_costs(d: Seq<DiffView>) -> Seq<u64> {
    d.map_values(|x: DiffView| x.1)
}

pub open spec fn new_costs(d: Seq<DiffView>) -> Seq<u64> {
    d.map_values(|x: DiffView| x.2)
}

/// One compared method.
#[derive(Clone, Debug, PartialEq, Eq)]
pub struct MethodDiff {
    pub name: String,
    pub former_cost: u64,
    pub new_cost: u64,
    pub change: GasChange,
}

/// The comparison of a new snapshot with a former one.
#[derive(Clone, Debug, PartialEq, Eq)]
pub struct SnapshotDiff {
    pub methods: Vec<MethodDiff>,
    /// In a check, the first new entry that the former snapshot lacks.
    pub missing: Option<String>,
    /// The sum of the former costs of the compared methods.
    pub former_total: u128,
    /// The sum of the new costs of the compared methods.
    pub new_total: u128,
}

pub open spec fn diff_views(v: Seq<MethodDiff>) -> Seq<DiffView> {
    v.map_values(|m: MethodDiff| (m.name@, m.former_cost, m.new_cost, m.change))
}

pub open spec fn opt_string_view(o: Option<String>) -> Option<Seq<char>> {
    match o {
        Some(s) => Some(s@),
        None => None,
    }
}

impl SnapshotDiff {
    /// Whether the snapshots match: nothing is missing and the totals are equal.
    pub fn matches(&self) -> (r: bool)
        ensures
            r == (self.missing is None && self.former_total == self.new_total),
    {
        self.missing.is_none() && self.former_total == self.new_total
    }

    /// The former total less the new one.
    pub open spec fn total_delta(&self) -> int {
        self.former_total - self.new_total
    }
}

fn lookup_former(former: &[MethodCost], name: &String) -> (r: Option<u64>)
    ensures
        r == former_cost(cost_views(former@), name@),
{
    proof {
        lemma_cost_views_full(former@);
    }
    let mut i: usize = former.len();
    while i > 0
        invariant
            0 <= i <= former@.len(),
            former_cost(cost_views(former@), name@) == former_cost(cost_views(former@.subrange(0, i as int)), name@),
        decreases i,
    {
        proof {
            assert(cost_views(former@.subrange(0, i as int)).drop_last() =~= cost_views(former@.subrange(0, i - 1)));
        }
        if former[i - 1].name == *name {
            return Some(former[i - 1].cost);
        }
        i = i - 1;
    }
    proof {
        assert(cost_views(former@.subrange(0, 0)) =~= Seq::<CostView>::empty());
    }
    None
}

proof fn lemma_cost_views_full(v: Seq<MethodCost>)
    ensures
        cost_views(v.subrange(0, v.len() as int)) == cost_views(v),
{
    assert(v.subrange(0, v.len() as int) =~= v);
}

proof fn lemma_missing_sticks(new: Seq<CostView>, former: Seq<CostView>, check: bool, k: int)
    requires
        0 <= k <= new.len(),
        compared(new.subrange(0, k), former, check).1 is Some,
    ensures
        compared(new, former, check) == compared(new.subrange(0, k), former, check),
    decreases new.len() - k,
{
    if k == new.len() {
        assert(new.subrange(0, k) =~= new);
    } else {
        assert(new.subrange(0, k + 1).drop_last() =~= new.subrange(0, k));
        lemma_missing_sticks(new, former, check, k + 1);
    }
}

/// Compare the new entries `methods` with the `former` snapshot.
pub fn diff(methods: &[MethodCost], former: &[MethodCost], check: bool) -> (r: SnapshotDiff)
    ensures
        ({
            let (d, missing) = compared(cost_views(methods@), cost_views(former@), check);
            &&& diff_views(r.methods@) == d
            &&& opt_string_view(r.missing) == missing
            &&& r.former_total == sum(former_costs(d))
            &&& r.new_total == sum(new_costs(d))
        }),
{
    proof {
        lemma_cost_views_full(former@);
    }
    let mut out: Vec<MethodDiff> = Vec::new();
    let mut former_total: u128 = 0;
    let mut new_total: u128 = 0;
    let mut i: usize = 0;
    while i < methods.len()
        invariant
            0 <= i <= methods@.len(),
            ({
                let (d, missing) = compared(cost_views(methods@.subrange(0, i as int)), cost_views(former@), check);
                &&& diff_views(out@) == d
                &&& missing is None
                &&& former_total == sum(former_costs(d))
                &&& new_total == sum(new_costs(d))
            }),
            out@.len() <= i,
        decreases methods@.len() - i,
    {
        let ghost pre = cost_views(methods@.subrange(0, i as int));
        proof {
            assert(cost_views(methods@.subrange(0, i + 1)).drop_last() =~= pre);
            assert(cost_views(methods@.subrange(0, i + 1)).last() == (methods@[i as int].name@, methods@[i as int].cost, methods@[i as int].passed));
        }
        let m = &methods[i];
        match lookup_former(former, &m.name) {
            Some(c) => {
                let change = if c == m.cost {
                    GasChange::Same
                } else if c < m.cost {
                    GasChange::More { by: m.cost - c }
                } else {
                    GasChange::Less { by: c - m.cost }
                };
                let ghost d0 = diff_views(out@);
                proof {
                    lemma_sum_bound(former_costs(d0));
                    lemma_sum_bound(new_costs(d0));
                    assert(out@.len() * 0xffff_ffff_ffff_ffffint <= 0x1_0000_0000_0000_0000int
                        * 0xffff_ffff_ffff_ffffint - 0xffff_ffff_ffff_ffffint) by (nonlinear_arith)
                        requires
                            out@.len() < 0x1_0000_0000_0000_0000int - 1,
                    ;
                }
                out.push(MethodDiff { name: m.name.clone(), former_cost: c, new_cost: m.cost, change });
                proof {
                    let d1 = diff_views(out@);
                    assert(d1 =~= d0.push((m.name@, c, m.cost, change)));
                    assert(former_costs(d1).drop_last() =~= former_costs(d0));
                    assert(new_costs(d1).drop_last() =~= new_costs(d0));
                }
                former_total = former_total + c as u128;
                new_total = new_total + m.cost as u128;
            },
            None => {
                if check {
                    proof {
                        lemma_missing_sticks(cost_views(methods@), cost_views(former@), check, i + 1);
                        assert(cost_views(methods@).subrange(0, i + 1) =~= cost_views(methods@.subrange(0, i + 1)));
                    }
                    return SnapshotDiff { methods: out, missing: Some(m.name.clone()), former_total, new_total };
                }
            },
        }
        i = i + 1;
    }
    proof {
        lemma_cost_views_full(methods@);
    }
    SnapshotDiff { methods: out, missing: None, former_total, new_total }
}


/// Whether no two entries share a name.
pub open spec fn names_distinct(entries: Seq<CostView>) -> bool {
    forall|i: int, j: int| 0 <= i < j < entries.len() ==> (#[trigger] entries[i]).0 != (#[trigger] entries[j]).0
}

proof fn lemma_former_cost_finds(entries: Seq<CostView>, i: int)
    requires
        names_distinct(entries),
        0 <= i < entries.len(),
    ensures
        former_cost(entries, entries[i].0) == Some(entries[i].1),
    decreases entries.len(),
{
    if i < entries.len() - 1 {
        let rest = entries.drop_last();
        assert(entries.last().0 != entries[i].0);
        assert(names_distinct(rest));
        assert(rest[i] == entries[i]);
        lemma_former_cost_finds(rest, i);
    }
}

/// Each entry compared with itself, unchanged.
pub open spec fn self_compared(entries: Seq<CostView>) -> Seq<DiffView> {
    entries.map_values(|e: CostView| (e.0, e.1, e.1, GasChange::Same))
}

proof fn lemma_self_prefix(entries: Seq<CostView>, check: bool, k: int)
    requires
        names_distinct(entries),
        0 <= k <= entries.len(),
    ensures
        compared(entries.subrange(0, k), entries, check) == (self_compared(entries.subrange(0, k)), None::<Seq<char>>),
    decreases k,
{
    if k > 0 {
        let pre = entries.subrange(0, k);
        assert(pre.drop_last() =~= entries.subrange(0, k - 1));
        lemma_self_prefix(entries, check, k - 1);
        lemma_former_cost_finds(entries, k - 1);
        assert(self_compared(pre) =~= self_compared(entries.subrange(0, k - 1)).push(
            (entries[k - 1].0, entries[k - 1].1, entries[k - 1].1, GasChange::Same),
        ));
    }
}

/// A snapshot compared with itself: every entry is found with the same gas,
/// nothing is missing, and the two totals are equal, so the total delta is
/// zero. Entries must have distinct names: the comparison looks each name up
/// by its last entry.
pub proof fn lemma_self_diff_is_same(entries: Seq<CostView>, check: bool)
    requires
        names_distinct(entries),
    ensures
        ({
            let (d, missing) = compared(entries, entries, check);
            &&& missing is None
            &&& d.len() == entries.len()
            &&& forall|i: int| 0 <= i < d.len() ==> (#[trigger] d[i]).3 == GasChange::Same && d[i].1 == d[i].2
            &&& sum(former_costs(d)) == sum(new_costs(d))
        }),
{
    lemma_self_prefix(entries, check, entries.len() as int);
    assert(entries.subrange(0, entries.len() as int) =~= entries);
    let d = self_compared(entries);
    assert(former_costs(d) =~= new_costs(d));
}

} // verus!
