//! Gas accounting: per-method gas costs rebuilt from flat execution traces,
//! and their statistics.

use crate::abi::Method;
use crate::actor::DeployedActor;
use crate::cheatcodes::ActorAddress;
use crate::context::ActorID;
use crate::tester::{TestResult, TestResultType};
use crate::trace::ExecutionEvent;
use vstd::prelude::*;

verus! {

/// An open call while a trace is replayed: its method, the address called and
/// the gas charged to it so far.
#[derive(Clone, Copy, Debug, PartialEq, Eq, Structural)]
pub struct Frame {
    pub method: u64,
    pub at: ActorAddress,
    pub gas: u64,
}

/// The open calls and the cost samples `(method, gas)` recorded so far.
pub type ReplayState = (Seq<Frame>, Seq<(u64, u64)>);

/// The method numbers of `methods`.
pub open spec fn numbers(methods: Seq<Method>) -> Seq<u64> {
    methods.map_values(|m: Method| m.spec_number())
}

/// Whether a finished call is a call of one of the target's declared methods.
pub open spec fn attributable(f: Frame, target: ActorID, nums: Seq<u64>) -> bool {
    f.at == ActorAddress::Id(target) && nums.contains(f.method)
}

/// The stack with `gas` added to its top frame.
pub open spec fn charge_top(stack: Seq<Frame>, gas: u64) -> Seq<Frame> {
    if stack.len() == 0 {
        stack
    } else {
        let top = stack.last();
        stack.update(stack.len() - 1, Frame { gas: (top.gas + gas) as u64, ..top })
    }
}

/// One event of a trace: a call pushes a frame; a charge goes to the top
/// frame, or is dropped when no call is open; a return or an error pops the
/// top frame, adds its gas to the frame below, and records it as a sample when
/// it is a call of one of the target's methods.
pub open spec fn step(st: ReplayState, e: ExecutionEvent, target: ActorID, nums: Seq<u64>) -> ReplayState {
    let (stack, samples) = st;
    match e {
        ExecutionEvent::Call { to, method, .. } => (stack.push(Frame { method, at: to, gas: 0 }), samples),
        ExecutionEvent::GasCharge { amount, .. } => (charge_top(stack, amount), samples),
        _ => if stack.len() == 0 {
            st
        } else {
            let top = stack.last();
            (
                charge_top(stack.drop_last(), top.gas),
                if attributable(top, target, nums) { samples.push((top.method, top.gas)) } else { samples },
            )
        },
    }
}

/// The state after replaying `events` from an empty stack.
pub open spec fn replay(events: Seq<ExecutionEvent>, target: ActorID, nums: Seq<u64>) -> ReplayState
    decreases events.len(),
{
    if events.len() == 0 {
        (Seq::empty(), Seq::empty())
    } else {
        step(replay(events.drop_last(), target, nums), events.last(), target, nums)
    }
}

/// The gas that all the charges of `events` add up to.
pub open spec fn charged(events: Seq<ExecutionEvent>) -> int
    decreases events.len(),
{
    if events.len() == 0 {
        0
    } else {
        charged(events.drop_last()) + match events.last() {
            ExecutionEvent::GasCharge { amount, .. } => amount as int,
            _ => 0int,
        }
    }
}

/// The gas held by the frames of a stack.
pub open spec fn frames_gas(stack: Seq<Frame>) -> int
    decreases stack.len(),
{
    if stack.len() == 0 {
        0
    } else {
        frames_gas(stack.drop_last()) + stack.last().gas
    }
}

proof fn lemma_frame_le_total(stack: Seq<Frame>, i: int)
    requires
        0 <= i < stack.len(),
    ensures
        stack[i].gas <= frames_gas(stack),
    decreases stack.len(),
{
    lemma_frames_nonneg(stack.drop_last());
    if i < stack.len() - 1 {
        lemma_frame_le_total(stack.drop_last(), i);
    }
}

proof fn lemma_frames_nonneg(stack: Seq<Frame>)
    ensures
        frames_gas(stack) >= 0,
    decreases stack.len(),
{
    if stack.len() > 0 {
        lemma_frames_nonneg(stack.drop_last());
    }
}

proof fn lemma_charge_top(stack: Seq<Frame>, gas: u64)
    requires
        stack.len() > 0,
        frames_gas(stack) + gas <= u64::MAX,
    ensures
        frames_gas(charge_top(stack, gas)) == frames_gas(stack) + gas,
{
    let s2 = charge_top(stack, gas);
    lemma_frame_le_total(stack, stack.len() - 1);
    assert(s2.drop_last() =~= stack.drop_last());
    assert(s2.last().gas == stack.last().gas + gas);
}

proof fn lemma_step_bounded(st: ReplayState, e: ExecutionEvent, target: ActorID, nums: Seq<u64>, before: int)
    requires
        frames_gas(st.0) <= before,
        before + match e {
            ExecutionEvent::GasCharge { amount, .. } => amount as int,
            _ => 0int,
        } <= u64::MAX,
    ensures
        frames_gas(step(st, e, target, nums).0) <= before + match e {
            ExecutionEvent::GasCharge { amount, .. } => amount as int,
            _ => 0int,
        },
{
    let (stack, samples) = st;
    match e {
        ExecutionEvent::Call { to, method, .. } => {
            assert(stack.push(Frame { method, at: to, gas: 0 }).drop_last() =~= stack);
        },
        ExecutionEvent::GasCharge { amount, .. } => {
            if stack.len() > 0 {
                lemma_charge_top(stack, amount);
            }
        },
        _ => {
            if stack.len() > 0 {
                let rest = stack.drop_last();
                if rest.len() > 0 {
                    lemma_charge_top(rest, stack.last().gas);
                }
            }
        },
    }
}

proof fn lemma_replay_bounded(events: Seq<ExecutionEvent>, target: ActorID, nums: Seq<u64>)
    requires
        charged(events) <= u64::MAX,
    ensures
        frames_gas(replay(events, target, nums).0) <= charged(events),
    decreases events.len(),
{
    if events.len() > 0 {
        lemma_charged_prefix(events);
        lemma_replay_bounded(events.drop_last(), target, nums);
        lemma_step_bounded(
            replay(events.drop_last(), target, nums),
            events.last(),
            target,
            nums,
            charged(events.drop_last()),
        );
    }
}

proof fn lemma_charged_prefix(events: Seq<ExecutionEvent>)
    requires
        events.len() > 0,
    ensures
        0 <= charged(events.drop_last()) <= charged(events),
    decreases events.len(),
{
    if events.len() > 1 {
        lemma_charged_prefix(events.drop_last());
    }
}

proof fn lemma_charged_mono(events: Seq<ExecutionEvent>, k: int)
    requires
        0 <= k <= events.len(),
    ensures
        0 <= charged(events.subrange(0, k)) <= charged(events),
    decreases events.len() - k,
{
    if k == events.len() {
        assert(events.subrange(0, k) =~= events);
        if events.len() > 0 {
            lemma_charged_prefix(events);
        }
    } else {
        lemma_charged_mono(events, k + 1);
        assert(events.subrange(0, k + 1).drop_last() =~= events.subrange(0, k));
        lemma_charged_prefix(events.subrange(0, k + 1));
    }
}

fn contains_number(methods: &[Method], n: u64) -> (r: bool)
    ensures
        r == numbers(methods@).contains(n),
{
    let mut i: usize = 0;
    while i < methods.len()
        invariant
            0 <= i <= methods@.len(),
            forall|j: int| 0 <= j < i ==> numbers(methods@)[j] != n,
        decreases methods@.len() - i,
    {
        if methods[i].number() == n {
            assert(numbers(methods@)[i as int] == n);
            return true;
        }
        i = i + 1;
    }
    false
}

fn charge_top_exec(stack: &mut Vec<Frame>, gas: u64)
    requires
        old(stack)@.len() > 0 ==> old(stack)@.last().gas + gas <= u64::MAX,
    ensures
        final(stack)@ == charge_top(old(stack)@, gas),
{
    let n = stack.len();
    if n > 0 {
        let top = stack[n - 1];
        stack.set(n - 1, Frame { gas: top.gas + gas, ..top });
    }
}

/// Rebuild the cost samples `(method, gas)` of a trace: one for each finished
/// call to the actor `target` of a method of `methods`, with the gas charged
/// inside that call, nested calls included, in the order the calls finish.
pub fn trace_samples(events: &Vec<ExecutionEvent>, target: ActorID, methods: &[Method]) -> (r: Vec<(u64, u64)>)
    requires
        charged(events@) <= u64::MAX,
    ensures
        r@ == replay(events@, target, numbers(methods@)).1,
{
    let ghost nums = numbers(methods@);
    let mut stack: Vec<Frame> = Vec::new();
    let mut samples: Vec<(u64, u64)> = Vec::new();
    let mut i: usize = 0;
    while i < events.len()
        invariant
            0 <= i <= events@.len(),
            charged(events@) <= u64::MAX,
            nums == numbers(methods@),
            (stack@, samples@) == replay(events@.subrange(0, i as int), target, nums),
        decreases events@.len() - i,
    {
        let ghost pre = events@.subrange(0, i as int);
        proof {
            assert(events@.subrange(0, i + 1).drop_last() =~= pre);
            lemma_charged_mono(events@, i + 1);
            lemma_charged_mono(events@, i as int);
            lemma_replay_bounded(pre, target, nums);
        }
        match &events[i] {
            ExecutionEvent::Call { to, method, .. } => {
                stack.push(Frame { method: *method, at: *to, gas: 0 });
            },
            ExecutionEvent::GasCharge { amount, .. } => {
                proof {
                    if stack@.len() > 0 {
                        lemma_frame_le_total(stack@, stack@.len() - 1);
                    }
                }
                charge_top_exec(&mut stack, *amount);
            },
            _ => {
                if stack.len() > 0 {
                    proof {
                        lemma_frame_le_total(stack@, stack@.len() - 1);
                        let rest = stack@.drop_last();
                        assert(frames_gas(stack@) == frames_gas(rest) + stack@.last().gas);
                        if rest.len() > 0 {
                            lemma_frame_le_total(rest, rest.len() - 1);
                        }
                    }
                    let top = stack.pop().unwrap();
                    charge_top_exec(&mut stack, top.gas);
                    if top.at == ActorAddress::Id(target) && contains_number(methods, top.method) {
                        samples.push((top.method, top.gas));
                    }
                }
            },
        }
        i = i + 1;
    }
    proof {
        assert(events@.subrange(0, events@.len() as int) =~= events@);
    }
    samples
}


/// Whether `s` is in ascending order.
pub open spec fn is_sorted(s: Seq<u64>) -> bool {
    forall|i: int, j: int| 0 <= i <= j < s.len() ==> s[i] <= s[j]
}

/// Sort cost samples in ascending order.
pub fn sort_samples(v: &Vec<u64>) -> (r: Vec<u64>)
    ensures
        is_sorted(r@),
        r@.to_multiset() == v@.to_multiset(),
{
    let mut r: Vec<u64> = Vec::new();
    let mut i: usize = 0;
    proof {
        assert(r@ =~= v@.subrange(0, 0));
    }
    while i < v.len()
        invariant
            0 <= i <= v@.len(),
            is_sorted(r@),
            r@.to_multiset() == v@.subrange(0, i as int).to_multiset(),
        decreases v@.len() - i,
    {
        let x = v[i];
        let mut pos: usize = 0;
        while pos < r.len() && r[pos] <= x
            invariant
                0 <= pos <= r@.len(),
                forall|k: int| 0 <= k < pos ==> r@[k] <= x,
            decreases r@.len() - pos,
        {
            pos = pos + 1;
        }
        let ghost before = r@;
        r.insert(pos, x);
        proof {
            assert(r@ == before.insert(pos as int, x));
            assert(v@.subrange(0, i + 1) =~= v@.subrange(0, i as int).push(x));
            vstd::seq_lib::to_multiset_build(v@.subrange(0, i as int), x);
            vstd::seq_lib::to_multiset_insert(before, pos as int, x);
            assert(v@.subrange(0, i + 1).to_multiset() == v@.subrange(0, i as int).to_multiset().insert(x));
            assert(r@.to_multiset() == before.to_multiset().insert(x));
            assert forall|a: int, b: int| 0 <= a <= b < r@.len() implies r@[a] <= r@[b] by {
                if b < pos {
                } else if a > pos {
                } else if a == pos && b == pos {
                } else if a < pos && b == pos {
                } else if a < pos {
                    assert(r@[b] == before[b - 1]);
                    assert(before[a] <= before[b - 1]);
                } else {
                    assert(pos < before.len());
                    assert(before[pos as int] > x);
                    assert(r@[b] == before[b - 1]);
                    assert(before[pos as int] <= before[b - 1]);
                }
            }
        }
        i = i + 1;
    }
    proof {
        assert(v@.subrange(0, v@.len() as int) =~= v@);
    }
    r
}

/// The sum of `s`.
pub open spec fn sum(s: Seq<u64>) -> int
    decreases s.len(),
{
    if s.len() == 0 {
        0
    } else {
        sum(s.drop_last()) + s.last()
    }
}

/// The median of sorted samples: the middle one, or the mean of the two
/// middle ones (rounded down) for an even count; 0 for no samples.
pub open spec fn median_of(t: Seq<u64>) -> int {
    let mid = t.len() as int / 2;
    if t.len() == 0 {
        0
    } else if t.len() % 2 == 0 {
        (t[mid - 1] + t[mid]) / 2
    } else {
        t[mid] as int
    }
}

/// Gas statistics of one method over its cost samples.
#[derive(Clone, Copy, Debug, PartialEq, Eq, Structural)]
pub struct GasStats {
    pub min: u64,
    pub max: u64,
    /// The sum of the samples; the mean is `total / count`.
    pub total: u128,
    pub median: u64,
    pub count: usize,
}

/// Whether `g` holds the statistics of the sorted samples `t`; all are 0
/// where there is no sample.
pub open spec fn stats_of(t: Seq<u64>, g: GasStats) -> bool {
    &&& g.count == t.len()
    &&& g.total == sum(t)
    &&& g.median == median_of(t)
    &&& g.min == (if t.len() == 0 { 0 } else { t[0] })
    &&& g.max == (if t.len() == 0 { 0 } else { t.last() })
}

pub proof fn lemma_sum_bound(s: Seq<u64>)
    ensures
        0 <= sum(s) <= s.len() * 0xffff_ffff_ffff_ffffint,
    decreases s.len(),
{
    if s.len() > 0 {
        lemma_sum_bound(s.drop_last());
        let n = s.len() as int;
        assert((n - 1) * 0xffff_ffff_ffff_ffffint + 0xffff_ffff_ffff_ffffint == n
            * 0xffff_ffff_ffff_ffffint) by (nonlinear_arith);
    }
}

/// Statistics of sorted cost samples.
pub fn stats_of_sorted(t: &Vec<u64>) -> (g: GasStats)
    requires
        is_sorted(t@),
    ensures
        stats_of(t@, g),
{
    let n = t.len();
    if n == 0 {
        return GasStats { min: 0, max: 0, total: 0, median: 0, count: 0 };
    }
    let mut total: u128 = 0;
    let mut i: usize = 0;
    while i < n
        invariant
            n == t@.len(),
            0 <= i <= n,
            total == sum(t@.subrange(0, i as int)),
        decreases n - i,
    {
        proof {
            assert(t@.subrange(0, i + 1).drop_last() =~= t@.subrange(0, i as int));
            lemma_sum_bound(t@.subrange(0, i + 1));
            assert((i + 1) * 0xffff_ffff_ffff_ffffint <= 0x1_0000_0000_0000_0000int
                * 0xffff_ffff_ffff_ffffint) by (nonlinear_arith)
                requires
                    i + 1 <= 0x1_0000_0000_0000_0000int,
            ;
        }
        total = total + t[i] as u128;
        i = i + 1;
    }
    proof {
        assert(t@.subrange(0, n as int) =~= t@);
    }
    let mid = n / 2;
    let median: u64 = if n % 2 == 0 {
        ((t[mid - 1] as u128 + t[mid] as u128) / 2) as u64
    } else {
        t[mid]
    };
    GasStats { min: t[0], max: t[n - 1], total, median, count: n }
}


/// The gas of the samples of method `n`, in order.
pub open spec fn gas_of(pairs: Seq<(u64, u64)>, n: u64) -> Seq<u64>
    decreases pairs.len(),
{
    if pairs.len() == 0 {
        Seq::empty()
    } else {
        let r = gas_of(pairs.drop_last(), n);
        if pairs.last().0 == n {
            r.push(pairs.last().1)
        } else {
            r
        }
    }
}

/// The trace of a result that ran to an exit code.
pub open spec fn result_trace(r: TestResult) -> Option<Seq<ExecutionEvent>> {
    match r.spec_ret() {
        TestResultType::Passed(x) => Some(x.execution_trace@),
        TestResultType::Failed(x) => Some(x.execution_trace@),
        TestResultType::Erred(_) => None,
    }
}

/// Whether the charges of each trace of `results` add up to a `u64`.
pub open spec fn traces_bounded(results: Seq<TestResult>) -> bool {
    forall|i: int| 0 <= i < results.len() ==> (#[trigger] result_trace(results[i]) matches Some(t) ==> charged(t) <= u64::MAX)
}

fn trace_bounded_exec(events: &Vec<ExecutionEvent>) -> (r: bool)
    ensures
        r == (charged(events@) <= u64::MAX),
{
    let mut total: u64 = 0;
    let mut i: usize = 0;
    while i < events.len()
        invariant
            0 <= i <= events@.len(),
            total == charged(events@.subrange(0, i as int)),
        decreases events@.len() - i,
    {
        proof {
            assert(events@.subrange(0, i + 1).drop_last() =~= events@.subrange(0, i as int));
        }
        if let ExecutionEvent::GasCharge { amount, .. } = &events[i] {
            if *amount > u64::MAX - total {
                proof {
                    lemma_charged_mono(events@, i + 1);
                }
                return false;
            }
            total = total + *amount;
        }
        i = i + 1;
    }
    proof {
        assert(events@.subrange(0, events@.len() as int) =~= events@);
    }
    true
}

/// Whether the charges of each trace of `results` add up to a `u64`, as
/// `GasReport::analyze` asks.
pub fn traces_bounded_exec(results: &[TestResult]) -> (r: bool)
    ensures
        r == traces_bounded(results@),
{
    let mut i: usize = 0;
    while i < results.len()
        invariant
            0 <= i <= results@.len(),
            forall|j: int| 0 <= j < i ==> (#[trigger] result_trace(results@[j]) matches Some(t) ==> charged(t) <= u64::MAX),
        decreases results@.len() - i,
    {
        let ghost t = result_trace(results@[i as int]);
        match results[i].ret() {
            TestResultType::Passed(x) | TestResultType::Failed(x) => {
                if !trace_bounded_exec(&x.execution_trace) {
                    proof {
                        assert(t == Some(x.execution_trace@));
                    }
                    return false;
                }
            },
            TestResultType::Erred(_) => {},
        }
        i = i + 1;
    }
    true
}

/// The cost samples of method number `n` of the actor `target` over the
/// traces of `results`, in order; results whose message was not applied give none.
pub open spec fn results_gas(results: Seq<TestResult>, target: ActorID, nums: Seq<u64>, n: u64) -> Seq<u64>
    decreases results.len(),
{
    if results.len() == 0 {
        Seq::empty()
    } else {
        results_gas(results.drop_last(), target, nums, n) + match result_trace(results.last()) {
            Some(t) => gas_of(replay(t, target, nums).1, n),
            None => Seq::empty(),
        }
    }
}

/// The cost samples of one target actor: one list per method of its
/// interface, in declaration order.
pub struct ActorReport {
    actor: DeployedActor,
    samples: Vec<Vec<u64>>,
}

/// A report as values: the actor and the samples of each of its methods.
pub type ActorReportView = (DeployedActor, Seq<Seq<u64>>);

/// Gas report of the tested target actors.
pub struct GasReport {
    reports: Vec<ActorReport>,
}

/// The index of the report on the actor deployed at `addr`, if there is one.
pub open spec fn report_index(rs: Seq<ActorReportView>, addr: ActorID) -> Option<int> {
    if exists|k: int| 0 <= k < rs.len() && (#[trigger] rs[k]).0.spec_address() == addr {
        Some(choose|k: int| 0 <= k < rs.len() && (#[trigger] rs[k]).0.spec_address() == addr)
    } else {
        None
    }
}

/// Whether each report holds one list of samples per method of its actor.
pub open spec fn reports_ok(rs: Seq<ActorReportView>) -> bool {
    &&& forall|k: int| 0 <= k < rs.len() ==> (#[trigger] rs[k]).1.len() == rs[k].0.spec_abi().methods@.len()
    &&& forall|k: int, l: int| 0 <= k < l < rs.len() ==> (#[trigger] rs[k]).0.spec_address() != (#[trigger] rs[l]).0.spec_address()
}

impl GasReport {
    pub closed spec fn spec_reports(&self) -> Seq<ActorReportView> {
        self.reports@.map_values(|r: ActorReport| (r.actor, r.samples@.map_values(|v: Vec<u64>| v@)))
    }

    /// A report on no actor.
    pub fn new() -> (r: GasReport)
        ensures
            r.spec_reports().len() == 0,
    {
        GasReport { reports: Vec::new() }
    }

    /// Add the cost samples that the traces of `test_results` hold for the
    /// methods of the target `actor`. A report already kept for the actor's
    /// id grows; otherwise a new one is started for `actor`.
    pub fn analyze(&mut self, actor: DeployedActor, test_results: &[TestResult])
        requires
            reports_ok(old(self).spec_reports()),
            traces_bounded(test_results@),
        ensures
            reports_ok(final(self).spec_reports()),
            ({
                let addr = actor.spec_address();
                let o = old(self).spec_reports();
                let f = final(self).spec_reports();
                match report_index(o, addr) {
                    Some(k) => f.len() == o.len() && (forall|l: int| 0 <= l < o.len() && l != k ==> f[l] == o[l])
                        && f[k].0 == o[k].0 && f[k].1.len() == o[k].1.len()
                        && forall|j: int| 0 <= j < f[k].1.len() ==> #[trigger] f[k].1[j] == o[k].1[j] + results_gas(
                            test_results@, addr, numbers(o[k].0.spec_abi().methods@),
                            numbers(o[k].0.spec_abi().methods@)[j]),
                    None => f.len() == o.len() + 1 && f.drop_last() == o && f.last().0 == actor
                        && f.last().1.len() == actor.spec_abi().methods@.len()
                        && forall|j: int| 0 <= j < f.last().1.len() ==> #[trigger] f.last().1[j] == results_gas(
                            test_results@, addr, numbers(actor.spec_abi().methods@),
                            numbers(actor.spec_abi().methods@)[j]),
                }
            }),
    {
        let addr = actor.address();
        let mut k: usize = 0;
        while k < self.reports.len()
            invariant
                0 <= k <= self.reports@.len(),
                self.spec_reports() == old(self).spec_reports(),
                forall|l: int| 0 <= l < k ==> (#[trigger] self.spec_reports()[l]).0.spec_address() != addr,
            ensures
                0 <= k <= self.reports@.len(),
                self.spec_reports() == old(self).spec_reports(),
                forall|l: int| 0 <= l < k ==> (#[trigger] self.spec_reports()[l]).0.spec_address() != addr,
                k < self.reports@.len() ==> self.spec_reports()[k as int].0.spec_address() == addr,
            decreases self.reports@.len() - k,
        {
            if self.reports[k].actor.address() == addr {
                break;
            }
            k = k + 1;
        }
        let ghost o = old(self).spec_reports();
        proof {
            if k < o.len() {
                assert(o[k as int].0.spec_address() == addr);
                let c = choose|c: int| 0 <= c < o.len() && (#[trigger] o[c]).0.spec_address() == addr;
                assert(c == k) by {
                    if c < k {
                        assert(o[c].0.spec_address() != addr);
                    } else if c > k {
                    }
                }
            } else {
                assert(report_index(o, addr) is None);
            }
        }
        if k == self.reports.len() {
            let n = actor.abi().methods().len();
            let mut samples: Vec<Vec<u64>> = Vec::new();
            let mut j: usize = 0;
            while j < n
                invariant
                    0 <= j <= n,
                    samples@.len() == j,
                    forall|i: int| 0 <= i < j ==> (#[trigger] samples@[i])@ == Seq::<u64>::empty(),
                decreases n - j,
            {
                samples.push(Vec::new());
                j = j + 1;
            }
            self.reports.push(ActorReport { actor, samples });
            proof {
                let m = self.spec_reports();
                assert(m.drop_last() =~= o);
                assert forall|l: int| 0 <= l < m.len() implies (#[trigger] m[l]).1.len() == m[l].0.spec_abi().methods@.len() by {
                    if l < o.len() {
                        assert(m[l] == o[l]);
                    }
                }
                assert(m[k as int].1.len() == m[k as int].0.spec_abi().methods@.len());
                assert forall|a: int, b: int| 0 <= a < b < m.len() implies (#[trigger] m[a]).0.spec_address()
                    != (#[trigger] m[b]).0.spec_address() by {
                    if b < o.len() {
                        assert(m[a] == o[a] && m[b] == o[b]);
                    } else {
                        assert(m[a] == o[a]);
                    }
                }
            }
        }
        let ghost mid = self.spec_reports();
        proof {
            assert(reports_ok(mid));
            assert(mid[k as int].0.spec_address() == addr);
        }
        let report = self.reports.remove(k);
        let ghost old_samples = report.samples@.map_values(|v: Vec<u64>| v@);
        proof {
            assert(mid[k as int].1 == old_samples);
        }
        let methods = report.actor.abi().methods();
        let mut new_samples: Vec<Vec<u64>> = Vec::new();
        let mut j: usize = 0;
        while j < report.samples.len()
            invariant
                0 <= j <= report.samples@.len(),
                report.samples@.len() == methods@.len(),
                methods@ == report.actor.spec_abi().methods@,
                old_samples == report.samples@.map_values(|v: Vec<u64>| v@),
                traces_bounded(test_results@),
                new_samples@.len() == j,
                forall|i: int| 0 <= i < j ==> (#[trigger] new_samples@[i])@ == old_samples[i] + results_gas(
                    test_results@, addr, numbers(methods@), numbers(methods@)[i]),
            decreases report.samples@.len() - j,
        {
            let mut v = copy_samples(&report.samples[j]);
            let mut extra = results_gas_exec(test_results, addr, methods, methods[j].number());
            v.append(&mut extra);
            proof {
                assert(old_samples[j as int] == report.samples@[j as int]@);
                assert(numbers(methods@)[j as int] == methods@[j as int].spec_number());
            }
            new_samples.push(v);
            j = j + 1;
        }
        self.reports.insert(k, ActorReport { actor: report.actor, samples: new_samples });
        proof {
            let f = self.spec_reports();
            assert(f.len() == mid.len());
            assert forall|l: int| 0 <= l < f.len() && l != k implies f[l] == mid[l] by {
            }
            assert(f[k as int].0 == mid[k as int].0);
            assert(f[k as int].1.len() == mid[k as int].1.len());
            assert forall|a: int, b: int| 0 <= a < b < f.len() implies (#[trigger] f[a]).0.spec_address()
                != (#[trigger] f[b]).0.spec_address() by {
                assert(f[a].0 == mid[a].0 && f[b].0 == mid[b].0);
            }
            assert forall|l: int| 0 <= l < f.len() implies (#[trigger] f[l]).1.len() == f[l].0.spec_abi().methods@.len() by {
                assert(f[l].0 == mid[l].0);
            }
            assert(f[k as int].1 =~= new_samples@.map_values(|v: Vec<u64>| v@));
            if report_index(o, addr) is None {
                assert(f.drop_last() =~= o);
            }
        }
    }
}

fn copy_samples(v: &Vec<u64>) -> (r: Vec<u64>)
    ensures
        r@ == v@,
{
    let mut r: Vec<u64> = Vec::new();
    let mut i: usize = 0;
    while i < v.len()
        invariant
            0 <= i <= v@.len(),
            r@ == v@.subrange(0, i as int),
        decreases v@.len() - i,
    {
        r.push(v[i]);
        proof {
            assert(r@ =~= v@.subrange(0, i + 1));
        }
        i = i + 1;
    }
    proof {
        assert(r@ =~= v@);
    }
    r
}

fn gas_of_exec(pairs: &Vec<(u64, u64)>, n: u64) -> (r: Vec<u64>)
    ensures
        r@ == gas_of(pairs@, n),
{
    let mut r: Vec<u64> = Vec::new();
    let mut i: usize = 0;
    while i < pairs.len()
        invariant
            0 <= i <= pairs@.len(),
            r@ == gas_of(pairs@.subrange(0, i as int), n),
        decreases pairs@.len() - i,
    {
        proof {
            assert(pairs@.subrange(0, i + 1).drop_last() =~= pairs@.subrange(0, i as int));
        }
        let (m, g) = pairs[i];
        if m == n {
            r.push(g);
        }
        i = i + 1;
    }
    proof {
        assert(pairs@.subrange(0, pairs@.len() as int) =~= pairs@);
    }
    r
}

/// The cost samples of method number `n` of the actor `target` over the
/// traces of `results`.
pub fn results_gas_exec(results: &[TestResult], target: ActorID, methods: &[Method], n: u64) -> (r: Vec<u64>)
    requires
        traces_bounded(results@),
    ensures
        r@ == results_gas(results@, target, numbers(methods@), n),
{
    let mut r: Vec<u64> = Vec::new();
    let mut i: usize = 0;
    while i < results.len()
        invariant
            0 <= i <= results@.len(),
            traces_bounded(results@),
            r@ == results_gas(results@.subrange(0, i as int), target, numbers(methods@), n),
        decreases results@.len() - i,
    {
        proof {
            assert(results@.subrange(0, i + 1).drop_last() =~= results@.subrange(0, i as int));
        }
        let ghost t = result_trace(results@[i as int]);
        match results[i].ret() {
            TestResultType::Passed(x) | TestResultType::Failed(x) => {
                proof {
                    assert(t == Some(x.execution_trace@));
                }
                let pairs = trace_samples(&x.execution_trace, target, methods);
                let mut g = gas_of_exec(&pairs, n);
                r.append(&mut g);
            },
            TestResultType::Erred(_) => {
                proof {
                    assert(r@ =~= r@ + Seq::<u64>::empty());
                }
            },
        }
        i = i + 1;
    }
    proof {
        assert(results@.subrange(0, results@.len() as int) =~= results@);
    }
    r
}


/// Whether `g` holds the statistics of the samples `s`, taken in ascending order.
pub open spec fn stats_of_samples(s: Seq<u64>, g: GasStats) -> bool {
    exists|t: Seq<u64>| is_sorted(t) && t.to_multiset() == s.to_multiset() && #[trigger] stats_of(t, g)
}

/// Statistics of cost samples: minimum, maximum, sum, median and count.
pub fn method_stats(samples: &Vec<u64>) -> (g: GasStats)
    ensures
        stats_of_samples(samples@, g),
{
    let t = sort_samples(samples);
    let g = stats_of_sorted(&t);
    assert(is_sorted(t@) && t@.to_multiset() == samples@.to_multiset() && stats_of(t@, g));
    g
}

/// One row of a gas table: a method and the statistics of its samples.
pub struct MethodGasRow {
    pub name: String,
    pub stats: GasStats,
}

/// The gas table of one target actor: a row per method of its interface, in
/// declaration order.
pub struct ActorGasTable {
    pub actor_name: String,
    pub rows: Vec<MethodGasRow>,
}

/// Whether `t` is the table of the report `r`.
pub open spec fn table_of(r: ActorReportView, t: ActorGasTable) -> bool {
    &&& t.actor_name@ == r.0.spec_name()
    &&& t.rows@.len() == r.1.len()
    &&& forall|j: int| 0 <= j < t.rows@.len() ==> (#[trigger] t.rows@[j]).name@ == r.0.spec_abi().methods@[j].spec_name()
        && stats_of_samples(r.1[j], t.rows@[j].stats)
}

impl GasReport {
    /// The cost samples kept for method `j` of the interface of the actor
    /// deployed at `addr`.
    pub fn method_samples(&self, addr: ActorID, j: usize) -> (r: Option<Vec<u64>>)
        requires
            reports_ok(self.spec_reports()),
        ensures
            match report_index(self.spec_reports(), addr) {
                Some(k) => if j < self.spec_reports()[k].1.len() {
                    r matches Some(v) && v@ == self.spec_reports()[k].1[j as int]
                } else {
                    r is None
                },
                None => r is None,
            },
    {
        let mut k: usize = 0;
        while k < self.reports.len()
            invariant
                0 <= k <= self.reports@.len(),
                reports_ok(self.spec_reports()),
                forall|l: int| 0 <= l < k ==> (#[trigger] self.spec_reports()[l]).0.spec_address() != addr,
            decreases self.reports@.len() - k,
        {
            let report = &self.reports[k];
            if report.actor.address() == addr {
                proof {
                    let rs = self.spec_reports();
                    let c = choose|c: int| 0 <= c < rs.len() && (#[trigger] rs[c]).0.spec_address() == addr;
                    assert(rs[k as int].0.spec_address() == addr);
                    assert(c == k) by {
                        if c < k {
                            assert(rs[c].0.spec_address() != addr);
                        } else if c > k {
                        }
                    }
                    assert(rs[k as int].1 == report.samples@.map_values(|v: Vec<u64>| v@));
                }
                if j < report.samples.len() {
                    return Some(copy_samples(&report.samples[j]));
                } else {
                    return None;
                }
            }
            k = k + 1;
        }
        None
    }

    /// Turn the report into one table per target actor, in the order the
    /// actors were first analyzed.
    pub fn finalize(self) -> (r: Vec<ActorGasTable>)
        requires
            reports_ok(self.spec_reports()),
        ensures
            r@.len() == self.spec_reports().len(),
            forall|k: int| 0 <= k < r@.len() ==> table_of(self.spec_reports()[k], #[trigger] r@[k]),
    {
        let mut tables: Vec<ActorGasTable> = Vec::new();
        let mut k: usize = 0;
        while k < self.reports.len()
            invariant
                0 <= k <= self.reports@.len(),
                reports_ok(self.spec_reports()),
                tables@.len() == k,
                forall|l: int| 0 <= l < k ==> table_of(self.spec_reports()[l], #[trigger] tables@[l]),
            decreases self.reports@.len() - k,
        {
            let report = &self.reports[k];
            let ghost rv = self.spec_reports()[k as int];
            let methods = report.actor.abi().methods();
            let mut rows: Vec<MethodGasRow> = Vec::new();
            let mut j: usize = 0;
            while j < report.samples.len()
                invariant
                    0 <= j <= report.samples@.len(),
                    rv == (report.actor, report.samples@.map_values(|v: Vec<u64>| v@)),
                    report.samples@.len() == methods@.len(),
                    methods@ == report.actor.spec_abi().methods@,
                    rows@.len() == j,
                    forall|i: int| 0 <= i < j ==> (#[trigger] rows@[i]).name@ == rv.0.spec_abi().methods@[i].spec_name()
                        && stats_of_samples(rv.1[i], rows@[i].stats),
                decreases report.samples@.len() - j,
            {
                let stats = method_stats(&report.samples[j]);
                let name = methods[j].name().to_string();
                rows.push(MethodGasRow { name, stats });
                j = j + 1;
            }
            let actor_name = report.actor.name().to_string();
            tables.push(ActorGasTable { actor_name, rows });
            k = k + 1;
        }
        tables
    }
}

} // verus!
