//! The test orchestrator: results and their classification, and the runs that
//! deploy a target actor or test it with a test actor, one event at a time.

use crate::abi::{Method, MethodType};
use crate::actor::{DeployedActor, WasmActor};
use crate::context::ActorID;
use crate::trace::{ExecutionResult, EXIT_OK};
use vstd::prelude::*;

verus! {

/// Outcome of one test method.
#[derive(Clone, Debug, PartialEq, Eq)]
pub enum TestResultType {
    Passed(ExecutionResult),
    Failed(ExecutionResult),
    /// The engine could not apply the message at all.
    Erred(String),
}

/// The result of running one method of a test actor.
#[derive(Clone, Debug, PartialEq, Eq)]
pub struct TestResult {
    method: Method,
    ret: TestResultType,
}

/// The outcome of a method of kind `kind` whose message gave `outcome`: a
/// `Test` passes on success, a `TestFail` passes on failure, and a message
/// that could not be applied is an error whatever the kind.
pub open spec fn classified(kind: MethodType, outcome: Result<ExecutionResult, String>) -> TestResultType {
    match outcome {
        Err(e) => TestResultType::Erred(e),
        Ok(r) => if kind == MethodType::TestFail {
            if r.exit_code == EXIT_OK {
                TestResultType::Failed(r)
            } else {
                TestResultType::Passed(r)
            }
        } else if kind == MethodType::Test && r.exit_code == EXIT_OK {
            TestResultType::Passed(r)
        } else {
            TestResultType::Failed(r)
        },
    }
}

impl TestResult {
    pub closed spec fn spec_method(&self) -> Method {
        self.method
    }

    pub closed spec fn spec_ret(&self) -> TestResultType {
        self.ret
    }

    /// A result of `method` with outcome `ret`.
    pub fn new(method: Method, ret: TestResultType) -> (r: TestResult)
        ensures
            r.spec_method() == method,
            r.spec_ret() == ret,
    {
        TestResult { method, ret }
    }

    /// Classify the outcome of running `method`.
    pub fn classify(method: Method, outcome: Result<ExecutionResult, String>) -> (r: TestResult)
        ensures
            r.spec_method() == method,
            r.spec_ret() == classified(method.spec_kind(), outcome),
    {
        let kind = method.kind();
        let ret = match outcome {
            Err(e) => TestResultType::Erred(e),
            Ok(r) => {
                if kind == MethodType::TestFail {
                    if r.exit_code == EXIT_OK {
                        TestResultType::Failed(r)
                    } else {
                        TestResultType::Passed(r)
                    }
                } else if kind == MethodType::Test && r.exit_code == EXIT_OK {
                    TestResultType::Passed(r)
                } else {
                    TestResultType::Failed(r)
                }
            },
        };
        TestResult { method, ret }
    }

    /// Whether the test passed.
    pub fn passed(&self) -> (r: bool)
        ensures
            r == (self.spec_ret() is Passed),
    {
        match &self.ret {
            TestResultType::Passed(_) => true,
            _ => false,
        }
    }

    /// Get the method tested.
    pub fn method(&self) -> (r: &Method)
        ensures
            *r == self.spec_method(),
    {
        &self.method
    }

    /// Get the outcome of the test.
    pub fn ret(&self) -> (r: &TestResultType)
        ensures
            *r == self.spec_ret(),
    {
        &self.ret
    }

    /// Why the test failed: the engine's error, the failure that the
    /// message reported, or, for a `TestFail` method that succeeded, that it
    /// exited with exit code 0. `None` for a test that passed.
    pub fn failure_reason(&self) -> (r: Option<String>)
        ensures
            match self.spec_ret() {
                TestResultType::Passed(_) => r is None,
                TestResultType::Erred(e) => r == Some(e),
                TestResultType::Failed(x) => if self.spec_method().spec_kind() == MethodType::TestFail {
                    r matches Some(m) && m@ == "test exited with exit code 0"@
                } else {
                    r == x.failure_info
                },
            },
    {
        match &self.ret {
            TestResultType::Passed(_) => None,
            TestResultType::Erred(e) => Some(e.clone()),
            TestResultType::Failed(x) => {
                if self.method.kind() == MethodType::TestFail {
                    Some(String::from_str("test exited with exit code 0"))
                } else {
                    x.failure_info.clone()
                }
            },
        }
    }
}

impl TestResult {
    /// The report line of the result: `test <method> ... ok` when it passed,
    /// `test <method> ... FAILED` otherwise.
    pub fn line(&self) -> (r: String)
        ensures
            r@ == "test "@ + self.spec_method().spec_name() + (if self.spec_ret() is Passed {
                " ... ok"@
            } else {
                " ... FAILED"@
            }),
    {
        let mut l = String::from_str("test ");
        l.append(self.method.name());
        if self.passed() {
            l.append(" ... ok");
        } else {
            l.append(" ... FAILED");
        }
        l
    }
}

/// How many results passed.
pub open spec fn passed_count(results: Seq<TestResult>) -> nat
    decreases results.len(),
{
    if results.len() == 0 {
        0
    } else {
        passed_count(results.drop_last()) + if results.last().spec_ret() is Passed { 1nat } else { 0nat }
    }
}

/// Count the results that passed and those that did not.
pub fn summarize(results: &[TestResult]) -> (r: (usize, usize))
    ensures
        r.0 == passed_count(results@),
        r.0 + r.1 == results@.len(),
{
    let mut passed: usize = 0;
    let mut failed: usize = 0;
    let mut i: usize = 0;
    while i < results.len()
        invariant
            0 <= i <= results@.len(),
            passed == passed_count(results@.subrange(0, i as int)),
            passed + failed == i,
        decreases results@.len() - i,
    {
        proof {
            assert(results@.subrange(0, i + 1).drop_last() =~= results@.subrange(0, i as int));
        }
        if results[i].passed() {
            passed = passed + 1;
        } else {
            failed = failed + 1;
        }
        i = i + 1;
    }
    proof {
        assert(results@.subrange(0, results@.len() as int) =~= results@);
    }
    (passed, failed)
}

/// Errors of deployment and of the lifecycle of actors under test.
#[derive(Clone, Debug, PartialEq, Eq)]
pub enum TesterError {
    /// The bytecode is not a valid WebAssembly module.
    Validation { name: String },
    /// The constructor did not succeed.
    Constructor { name: String, cause: Option<String> },
    /// The set-up method did not succeed.
    Setup { name: String, cause: Option<String> },
    /// No target actor has been deployed.
    MissingActor,
    /// The actor could not be written to the state store.
    SettingActor { name: String, cause: String },
    /// The engine reported something that the run did not expect.
    Tester { msg: String },
}

impl TesterError {
    /// A sentence that describes the error.
    pub fn message(&self) -> (r: String)
        ensures
            r@ == match *self {
                TesterError::Validation { name } => "Could not parse wasm bin module as a valid module: "@
                    + name@,
                TesterError::Constructor { name, .. } => "Constructor execution failed for actor: "@ + name@,
                TesterError::Setup { name, .. } => "Setup execution failed for actor: "@ + name@,
                TesterError::MissingActor => "Main Actor not loaded"@,
                TesterError::SettingActor { name, .. } => "Could not set Actor: "@ + name@
                    + " on the BlockStore"@,
                TesterError::Tester { msg } => msg@,
            },
    {
        match self {
            TesterError::Validation { name } => {
                let mut m = String::from_str("Could not parse wasm bin module as a valid module: ");
                m.append(name.as_str());
                m
            },
            TesterError::Constructor { name, .. } => {
                let mut m = String::from_str("Constructor execution failed for actor: ");
                m.append(name.as_str());
                m
            },
            TesterError::Setup { name, .. } => {
                let mut m = String::from_str("Setup execution failed for actor: ");
                m.append(name.as_str());
                m
            },
            TesterError::MissingActor => String::from_str("Main Actor not loaded"),
            TesterError::SettingActor { name, .. } => {
                let mut m = String::from_str("Could not set Actor: ");
                m.append(name.as_str());
                m.append(" on the BlockStore");
                m
            },
            TesterError::Tester { msg } => msg.clone(),
        }
    }
}

/// Whether `bytes` is a WebAssembly module that validates without the SIMD
/// proposals.
pub uninterp spec fn wasm_module_valid(bytes: Seq<u8>) -> bool;

/// Relies on wasmparser's `Validator::validate_all`, which parses and validates
/// a whole module, with the SIMD proposals turned off.
#[verifier::external_body]
fn validate_wasm(bytes: &[u8]) -> (r: bool)
    ensures
        r == wasm_module_valid(bytes@),
{
    let mut features = wasmparser::WasmFeatures::default();
    features.set(wasmparser::WasmFeatures::SIMD, false);
    features.set(wasmparser::WasmFeatures::RELAXED_SIMD, false);
    wasmparser::Validator::new_with_features(features).validate_all(bytes).is_ok()
}

/// Check an actor's bytecode before anything of it runs.
pub fn validate_wasm_bin(actor: &WasmActor) -> (r: Result<(), TesterError>)
    ensures
        wasm_module_valid(actor.spec_code()) ==> r is Ok,
        !wasm_module_valid(actor.spec_code()) ==> (r matches Err(TesterError::Validation { name })
            && name@ == actor.spec_name()),
{
    if validate_wasm(actor.code()) {
        Ok(())
    } else {
        Err(TesterError::Validation { name: actor.name().to_string() })
    }
}


/// What a run asks of the engine next.
#[derive(Clone, Debug, PartialEq, Eq)]
pub enum Action {
    /// Store the actor's bytecode at a fresh actor id, flush the state tree and
    /// open an execution session on its root. Answer `Deployed` or `DeployFailed`.
    Deploy,
    /// Execute `method` of the actor `to` in the open session. Answer `Executed`.
    Execute { to: ActorID, method: u64 },
    /// Write the open session's store back to the state tree. Answer
    /// `Committed` with the new root.
    Commit,
    /// Open a fresh session on the state root `root` and execute `method` of
    /// the actor `to` in it. Answer `Executed`.
    ExecuteFresh { root: Vec<u8>, to: ActorID, method: u64 },
    /// The run is over.
    Finish,
}

/// What the engine reports back to a run.
#[derive(Debug, PartialEq, Eq)]
pub enum Event {
    /// The actor was stored at this id.
    Deployed(ActorID),
    /// The actor could not be stored.
    DeployFailed(String),
    /// A message ran to an exit code, or the engine could not apply it.
    Executed(Result<ExecutionResult, String>),
    /// The session was written back; this is the new state root.
    Committed(Vec<u8>),
}

/// Where a run stands.
#[derive(Clone, Copy, Debug, PartialEq, Eq, Structural)]
pub enum Phase {
    Deploying,
    Constructing,
    SettingUp,
    Committing,
    Running,
    Done,
}

/// A run as values.
pub struct RunView {
    pub actor: WasmActor,
    /// The target's id when the run tests a target; `None` when the run
    /// deploys the target itself.
    pub target: Option<ActorID>,
    /// The methods that the run executes, in declaration order.
    pub methods: Seq<Method>,
    pub phase: Phase,
    /// Where the actor was deployed.
    pub address: ActorID,
    /// The state root committed after the constructor and set-up method.
    pub root: Seq<u8>,
    /// The index of the method that runs now.
    pub next: int,
    pub results: Seq<TestResult>,
    pub error: Option<TesterError>,
}

/// The `Test` and `TestFail` methods of `ms`, in order.
pub open spec fn test_methods(ms: Seq<Method>) -> Seq<Method>
    decreases ms.len(),
{
    if ms.len() == 0 {
        Seq::empty()
    } else {
        let rest = test_methods(ms.drop_last());
        let k = ms.last().spec_kind();
        if k == MethodType::Test || k == MethodType::TestFail {
            rest.push(ms.last())
        } else {
            rest
        }
    }
}

/// Whether a lifecycle message succeeded.
pub open spec fn succeeded(out: Result<ExecutionResult, String>) -> bool {
    out matches Ok(r) && r.exit_code == EXIT_OK
}

/// The cause that a failed lifecycle message reports.
pub open spec fn cause_of(out: Result<ExecutionResult, String>) -> Option<String> {
    match out {
        Ok(r) => r.failure_info,
        Err(e) => Some(e),
    }
}

/// Whether the run executes a set-up method: test runs do, when the actor
/// declares one.
pub open spec fn runs_set_up(v: RunView) -> bool {
    v.target is Some && v.actor.spec_abi().set_up is Some
}

/// The same run in another phase, with the action that opens that phase:
/// the set-up method if it runs, else the commit.
pub open spec fn to_set_up_or_commit(o: RunView, n: RunView, a: Action) -> bool {
    if runs_set_up(o) {
        &&& n == RunView { phase: Phase::SettingUp, ..o }
        &&& a == Action::Execute { to: o.address, method: o.actor.spec_abi().set_up.unwrap().spec_number() }
    } else {
        &&& n == RunView { phase: Phase::Committing, ..o }
        &&& a == Action::Commit
    }
}

/// The action that runs method `i` of the run, or ends it.
pub open spec fn method_action(n: RunView, a: Action) -> bool {
    if n.next < n.methods.len() {
        &&& n.phase == Phase::Running
        &&& a matches Action::ExecuteFresh { root, to, method } && root@ == n.root && to == n.address
            && method == n.methods[n.next].spec_number()
    } else {
        &&& n.phase == Phase::Done
        &&& a == Action::Finish
    }
}

/// One step of a run: the run `o` hears `e`, becomes `n` and asks for `a`.
pub open spec fn transition(o: RunView, e: Event, n: RunView, a: Action) -> bool {
    match (o.phase, e) {
        (Phase::Deploying, Event::Deployed(id)) => {
            let o2 = RunView { address: id, ..o };
            match o.actor.spec_abi().constructor {
                Some(c) => n == RunView { phase: Phase::Constructing, ..o2 } && a == Action::Execute {
                    to: id,
                    method: c.spec_number(),
                },
                None => to_set_up_or_commit(o2, n, a),
            }
        },
        (Phase::Deploying, Event::DeployFailed(cause)) => {
            &&& n == RunView {
                phase: Phase::Done,
                error: Some(TesterError::SettingActor { name: n.error.unwrap()->SettingActor_name, cause }),
                ..o
            }
            &&& n.error.unwrap()->SettingActor_name@ == o.actor.spec_name()
            &&& a == Action::Finish
        },
        (Phase::Constructing, Event::Executed(out)) => if succeeded(out) {
            to_set_up_or_commit(o, n, a)
        } else {
            &&& n == RunView {
                phase: Phase::Done,
                error: Some(TesterError::Constructor { name: n.error.unwrap()->Constructor_name, cause: cause_of(out) }),
                ..o
            }
            &&& n.error.unwrap()->Constructor_name@ == o.actor.spec_name()
            &&& a == Action::Finish
        },
        (Phase::SettingUp, Event::Executed(out)) => if succeeded(out) {
            n == RunView { phase: Phase::Committing, ..o } && a == Action::Commit
        } else {
            &&& n == RunView {
                phase: Phase::Done,
                error: Some(TesterError::Setup { name: n.error.unwrap()->Setup_name, cause: cause_of(out) }),
                ..o
            }
            &&& n.error.unwrap()->Setup_name@ == o.actor.spec_name()
            &&& a == Action::Finish
        },
        (Phase::Committing, Event::Committed(root)) => if o.target is None {
            n == RunView { phase: Phase::Done, root: root@, ..o } && a == Action::Finish
        } else {
            &&& n == RunView { phase: n.phase, root: root@, next: 0, ..o }
            &&& method_action(n, a)
        },
        (Phase::Running, Event::Executed(out)) => {
            &&& n == RunView { phase: n.phase, next: o.next + 1, results: n.results, ..o }
            &&& n.results.len() == o.results.len() + 1
            &&& n.results.drop_last() == o.results
            &&& n.results.last().spec_method() == o.methods[o.next]
            &&& n.results.last().spec_ret() == classified(o.methods[o.next].spec_kind(), out)
            &&& method_action(n, a)
        },
        (Phase::Done, _) => n == o && a == Action::Finish,
        _ => {
            &&& n == RunView { phase: Phase::Done, error: n.error, ..o }
            &&& n.error matches Some(TesterError::Tester { .. })
            &&& a == Action::Finish
        },
    }
}

/// A run of the orchestrator: it deploys an actor, runs its constructor and,
/// for a test actor, its set-up method, commits the state, and then runs each
/// test method in a fresh session on that committed state. A new run's first
/// action is `Deploy`; `step` takes each answer of the engine.
pub struct Run {
    actor: WasmActor,
    target: Option<ActorID>,
    methods: Vec<Method>,
    phase: Phase,
    address: ActorID,
    root: Vec<u8>,
    next: usize,
    results: Vec<TestResult>,
    error: Option<TesterError>,
}

impl View for Run {
    type V = RunView;

    closed spec fn view(&self) -> RunView {
        RunView {
            actor: self.actor,
            target: self.target,
            methods: self.methods@,
            phase: self.phase,
            address: self.address,
            root: self.root@,
            next: self.next as int,
            results: self.results@,
            error: self.error,
        }
    }
}

/// Whether a run is well formed: the index of the running method is in range.
pub open spec fn run_ok(v: RunView) -> bool {
    &&& 0 <= v.next <= v.methods.len()
    &&& v.phase == Phase::Running ==> v.next < v.methods.len()
    &&& v.methods.len() <= usize::MAX
}

fn collect_test_methods(ms: &[Method]) -> (r: Vec<Method>)
    ensures
        r@ == test_methods(ms@),
{
    let mut r: Vec<Method> = Vec::new();
    let mut i: usize = 0;
    while i < ms.len()
        invariant
            0 <= i <= ms@.len(),
            r@ == test_methods(ms@.subrange(0, i as int)),
        decreases ms@.len() - i,
    {
        proof {
            assert(ms@.subrange(0, i + 1).drop_last() =~= ms@.subrange(0, i as int));
        }
        let k = ms[i].kind();
        if k == MethodType::Test || k == MethodType::TestFail {
            r.push(ms[i].clone_method());
        }
        i = i + 1;
    }
    proof {
        assert(ms@.subrange(0, ms@.len() as int) =~= ms@);
    }
    r
}

impl Run {
    /// Start a run on `actor`, deploying it as the target (`target` is `None`)
    /// or testing the target `target`. The first action is always `Deploy`.
    fn start(actor: WasmActor, target: Option<ActorID>) -> (r: Run)
        ensures
            run_ok(r@),
            r@.actor == actor,
            r@.target == target,
            r@.phase == Phase::Deploying,
            r@.results.len() == 0,
            r@.error is None,
            r@.next == 0,
            r@.methods == (if target is Some { test_methods(actor.spec_abi().methods@) } else { Seq::empty() }),
    {
        let methods = match target {
            Some(_) => collect_test_methods(actor.abi().methods()),
            None => Vec::new(),
        };
        proof {
            assert(methods.len() == methods@.len());
        }
        Run {
            actor,
            target,
            methods,
            phase: Phase::Deploying,
            address: 0,
            root: Vec::new(),
            next: 0,
            results: Vec::new(),
            error: None,
        }
    }

    /// Where the run stands.
    pub fn phase(&self) -> (r: Phase)
        ensures
            r == self@.phase,
    {
        self.phase
    }

    /// The results so far, in the order the methods ran.
    pub fn results(&self) -> (r: &Vec<TestResult>)
        ensures
            r@ == self@.results,
    {
        &self.results
    }

    fn lifecycle_error(&self, constructing: bool, out: &Result<ExecutionResult, String>) -> (r: TesterError)
        ensures
            constructing ==> (r matches TesterError::Constructor { name, cause } && name@ == self@.actor.spec_name() && cause == cause_of(*out)),
            !constructing ==> (r matches TesterError::Setup { name, cause } && name@ == self@.actor.spec_name() && cause == cause_of(*out)),
    {
        let name = self.actor.name().to_string();
        let cause = match out {
            Ok(r) => r.failure_info.clone(),
            Err(e) => Some(e.clone()),
        };
        if constructing {
            TesterError::Constructor { name, cause }
        } else {
            TesterError::Setup { name, cause }
        }
    }

    fn set_up_or_commit(&mut self) -> (a: Action)
        ensures
            to_set_up_or_commit(old(self)@, final(self)@, a),
    {
        if self.target.is_some() {
            if let Some(s) = self.actor.abi().set_up() {
                let method = s.number();
                self.phase = Phase::SettingUp;
                return Action::Execute { to: self.address, method };
            }
        }
        self.phase = Phase::Committing;
        Action::Commit
    }

    fn method_action(&mut self) -> (a: Action)
        requires
            old(self)@.next <= old(self)@.methods.len(),
        ensures
            final(self)@ == (RunView { phase: final(self)@.phase, ..old(self)@ }),
            method_action(final(self)@, a),
    {
        if self.next < self.methods.len() {
            self.phase = Phase::Running;
            Action::ExecuteFresh {
                root: self.root.clone(),
                to: self.address,
                method: self.methods[self.next].number(),
            }
        } else {
            self.phase = Phase::Done;
            Action::Finish
        }
    }

    fn unexpected(&mut self) -> (a: Action)
        ensures
            final(self)@ == (RunView { phase: Phase::Done, error: final(self)@.error, ..old(self)@ }),
            (final(self)@.error matches Some(TesterError::Tester { .. })),
            a == Action::Finish,
    {
        self.phase = Phase::Done;
        self.error = Some(TesterError::Tester { msg: String::from_str("unexpected engine event") });
        Action::Finish
    }

    /// Hear what the engine reports and say what it is to do next.
    pub fn step(&mut self, e: Event) -> (a: Action)
        requires
            run_ok(old(self)@),
        ensures
            run_ok(final(self)@),
            transition(old(self)@, e, final(self)@, a),
    {
        match self.phase {
            Phase::Deploying => match e {
                Event::Deployed(id) => {
                    self.address = id;
                    match self.actor.abi().constructor() {
                        Some(c) => {
                            let method = c.number();
                            self.phase = Phase::Constructing;
                            Action::Execute { to: id, method }
                        },
                        None => self.set_up_or_commit(),
                    }
                },
                Event::DeployFailed(cause) => {
                    let name = self.actor.name().to_string();
                    self.error = Some(TesterError::SettingActor { name, cause });
                    self.phase = Phase::Done;
                    Action::Finish
                },
                _ => self.unexpected(),
            },
            Phase::Constructing => match e {
                Event::Executed(out) => {
                    if let Ok(r) = &out {
                        if r.exit_code == EXIT_OK {
                            return self.set_up_or_commit();
                        }
                    }
                    let err = self.lifecycle_error(true, &out);
                    self.error = Some(err);
                    self.phase = Phase::Done;
                    Action::Finish
                },
                _ => self.unexpected(),
            },
            Phase::SettingUp => match e {
                Event::Executed(out) => {
                    if let Ok(r) = &out {
                        if r.exit_code == EXIT_OK {
                            self.phase = Phase::Committing;
                            return Action::Commit;
                        }
                    }
                    let err = self.lifecycle_error(false, &out);
                    self.error = Some(err);
                    self.phase = Phase::Done;
                    Action::Finish
                },
                _ => self.unexpected(),
            },
            Phase::Committing => match e {
                Event::Committed(root) => {
                    self.root = root;
                    if self.target.is_none() {
                        self.phase = Phase::Done;
                        Action::Finish
                    } else {
                        self.next = 0;
                        self.method_action()
                    }
                },
                _ => self.unexpected(),
            },
            Phase::Running => match e {
                Event::Executed(out) => {
                    let m = self.methods[self.next].clone_method();
                    let result = TestResult::classify(m, out);
                    let ghost before = self.results@;
                    self.results.push(result);
                    proof {
                        assert(self.results@.drop_last() =~= before);
                    }
                    self.next = self.next + 1;
                    self.method_action()
                },
                _ => self.unexpected(),
            },
            Phase::Done => Action::Finish,
        }
    }
}


impl Run {
    /// The results of a test run that is over, or the error that ended it.
    pub fn into_results(self) -> (r: Result<Vec<TestResult>, TesterError>)
        ensures
            self@.phase != Phase::Done ==> (r matches Err(TesterError::Tester { .. })),
            self@.phase == Phase::Done ==> match self@.error {
                Some(e) => r == Err::<Vec<TestResult>, TesterError>(e),
                None => r matches Ok(v) && v@ == self@.results,
            },
    {
        if self.phase != Phase::Done {
            return Err(TesterError::Tester { msg: String::from_str("run is not over") });
        }
        match self.error {
            Some(e) => Err(e),
            None => Ok(self.results),
        }
    }
}

/// A constructor that does not succeed ends the run with a `Constructor`
/// error that names the actor, and a run that is over stays over and asks
/// for nothing more, so no test method of it ever runs.
pub proof fn lemma_constructor_gating(
    o: RunView,
    out: Result<ExecutionResult, String>,
    n: RunView,
    a: Action,
    e2: Event,
    n2: RunView,
    a2: Action,
)
    requires
        o.phase == Phase::Constructing,
        !succeeded(out),
        transition(o, Event::Executed(out), n, a),
        transition(n, e2, n2, a2),
    ensures
        n.phase == Phase::Done,
        (n.error matches Some(TesterError::Constructor { name, .. }) && name@ == o.actor.spec_name()),
        a == Action::Finish,
        n2 == n,
        a2 == Action::Finish,
{
}

/// Test methods are isolated: once the state is committed, each method runs
/// in a fresh session opened on that committed root, and running a method
/// leaves the root as it is; no method runs in the shared lifecycle session.
pub proof fn lemma_methods_share_root(o: RunView, e: Event, n: RunView, a: Action)
    requires
        o.phase == Phase::Committing || o.phase == Phase::Running,
        transition(o, e, n, a),
    ensures
        o.phase == Phase::Running ==> n.root == o.root,
        o.phase == Phase::Committing ==> (e matches Event::Committed(root) ==> n.root == root@),
        a matches Action::ExecuteFresh { root, .. } ==> root@ == n.root,
        !(a is Execute),
        !(a is Deploy),
{
}

/// The orchestrator: it holds the deployed target actor and hands out the runs
/// that deploy a target or test it.
pub struct Tester {
    target_actor: Option<DeployedActor>,
    sequence: u64,
}

impl Tester {
    pub closed spec fn spec_target(&self) -> Option<DeployedActor> {
        self.target_actor
    }

    pub closed spec fn spec_sequence(&self) -> u64 {
        self.sequence
    }

    /// An orchestrator with no target deployed.
    pub fn new() -> (r: Tester)
        ensures
            r.spec_target() is None,
            r.spec_sequence() == 0,
    {
        Tester { target_actor: None, sequence: 0 }
    }

    /// Get the deployed target actor.
    pub fn deployed_actor(&self) -> (r: Option<&DeployedActor>)
        ensures
            match self.spec_target() {
                Some(t) => r matches Some(d) && *d == t,
                None => r is None,
            },
    {
        self.target_actor.as_ref()
    }

    /// Get the next message sequence number and count it.
    pub fn next_sequence(&mut self) -> (r: u64)
        requires
            old(self).spec_sequence() < u64::MAX,
        ensures
            r == old(self).spec_sequence(),
            final(self).spec_sequence() == r + 1,
            final(self).spec_target() == old(self).spec_target(),
    {
        let s = self.sequence;
        self.sequence = s + 1;
        s
    }

    /// Start deploying `actor` as the target. Its bytecode is validated first;
    /// the run then deploys it and runs its constructor, if it declares one.
    pub fn deploy_target_actor(&self, actor: WasmActor) -> (r: Result<Run, TesterError>)
        ensures
            !wasm_module_valid(actor.spec_code()) ==> (r matches Err(TesterError::Validation { name })
                && name@ == actor.spec_name()),
            wasm_module_valid(actor.spec_code()) ==> (r matches Ok(run) && run@.actor == actor
                && run@.target is None && run@.phase == Phase::Deploying && run_ok(run@)
                && run@.error is None && run@.results.len() == 0),
    {
        validate_wasm_bin(&actor)?;
        Ok(Run::start(actor, None))
    }

    /// Take the outcome of a target deployment: on success the actor becomes
    /// the target at the id where it was deployed.
    pub fn finish_target(&mut self, run: Run) -> (r: Result<(), TesterError>)
        ensures
            (run@.phase == Phase::Done && run@.error is None && run@.target is None) ==> (r is Ok
                && (final(self).spec_target() matches Some(d) && d.spec_name() == run@.actor.spec_name()
                && d.spec_code() == run@.actor.spec_code() && d.spec_abi() == run@.actor.spec_abi()
                && d.spec_address() == run@.address)),
            run@.phase == Phase::Done && run@.target is None && run@.error is Some ==> r
                == Err::<(), TesterError>(run@.error.unwrap()),
            !(run@.phase == Phase::Done && run@.error is None && run@.target is None) ==> (r is Err
                && *final(self) == *old(self)),
            final(self).spec_sequence() == old(self).spec_sequence(),
    {
        if run.phase != Phase::Done || run.target.is_some() {
            return Err(TesterError::Tester { msg: String::from_str("not a finished target deployment") });
        }
        match run.error {
            Some(e) => Err(e),
            None => {
                self.target_actor = Some(run.actor.deploy(run.address));
                Ok(())
            },
        }
    }

    /// Start testing the target with `test_actor`: its bytecode is validated,
    /// then the run deploys it, runs its constructor and set-up method, and
    /// runs each of its `Test` and `TestFail` methods on the committed state.
    pub fn test(&self, test_actor: &WasmActor) -> (r: Result<Run, TesterError>)
        ensures
            self.spec_target() is None ==> r == Err::<Run, TesterError>(TesterError::MissingActor),
            self.spec_target() is Some && !wasm_module_valid(test_actor.spec_code()) ==> (r matches Err(
                TesterError::Validation { name },
            ) && name@ == test_actor.spec_name()),
            self.spec_target() is Some && wasm_module_valid(test_actor.spec_code()) ==> (r matches Ok(run)
                && run@.actor.equiv(*test_actor) && run@.target == Some(self.spec_target().unwrap().spec_address())
                && run@.methods == test_methods(test_actor.spec_abi().methods@)
                && run@.phase == Phase::Deploying && run_ok(run@)
                && run@.error is None && run@.results.len() == 0),
    {
        let target = match &self.target_actor {
            Some(t) => t.address(),
            None => return Err(TesterError::MissingActor),
        };
        validate_wasm_bin(test_actor)?;
        Ok(Run::start(test_actor.clone_actor(), Some(target)))
    }
}

} // verus!
