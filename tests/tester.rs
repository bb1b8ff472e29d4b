use kythera::tester::{summarize, Phase};
use kythera::{
    Abi, Action, Event, ExecutionResult, Method, MethodType, TestResult, TestResultType, Tester,
    TesterError, WasmActor,
};

const EMPTY_MODULE: [u8; 8] = [0x00, 0x61, 0x73, 0x6d, 0x01, 0x00, 0x00, 0x00];

fn exec(exit_code: u32, gas_used: u64) -> ExecutionResult {
    ExecutionResult {
        exit_code,
        gas_used,
        return_data: None,
        failure_info: if exit_code == 0 {
            None
        } else {
            Some(format!("exit {exit_code}"))
        },
        execution_trace: vec![],
    }
}

fn actor(name: &str, methods: &[&str]) -> WasmActor {
    let ms = methods
        .iter()
        .map(|m| Method::new_from_name(m).unwrap())
        .collect();
    WasmActor::new(name.into(), EMPTY_MODULE.to_vec(), Abi::from_methods(ms).unwrap())
}

fn deploy_target(tester: &mut Tester, target: WasmActor, id: u64) {
    let mut run = tester.deploy_target_actor(target).unwrap();
    let mut a = run.step(Event::Deployed(id));
    if let Action::Execute { .. } = a {
        a = run.step(Event::Executed(Ok(exec(0, 1))));
    }
    assert_eq!(a, Action::Commit);
    assert_eq!(run.step(Event::Committed(vec![9])), Action::Finish);
    tester.finish_target(run).unwrap();
}

#[test]
fn test_fail_polarity() {
    let m = Method::new_from_name("TestFailTransfer").unwrap();
    let failing = TestResult::classify(m.clone(), Ok(exec(24, 5)));
    assert!(failing.passed());
    let succeeding = TestResult::classify(m, Ok(exec(0, 5)));
    assert!(!succeeding.passed());
    assert!(matches!(succeeding.ret(), TestResultType::Failed(_)));
    assert_eq!(
        succeeding.failure_reason(),
        Some("test exited with exit code 0".to_string())
    );
}

#[test]
fn test_kind_and_errors() {
    let m = Method::new_from_name("TestTransfer").unwrap();
    assert!(TestResult::classify(m.clone(), Ok(exec(0, 1))).passed());
    let failed = TestResult::classify(m.clone(), Ok(exec(24, 1)));
    assert!(!failed.passed());
    assert_eq!(failed.failure_reason(), Some("exit 24".to_string()));
    assert_eq!(failed.line(), "test TestTransfer ... FAILED");
    let erred = TestResult::classify(m.clone(), Err("no message".into()));
    assert_eq!(erred.ret(), &TestResultType::Erred("no message".into()));
    let tf = Method::new_from_name("TestFailX").unwrap();
    assert!(!TestResult::classify(tf, Err("e".into())).passed());
    let ok = TestResult::classify(m, Ok(exec(0, 1)));
    assert_eq!(ok.line(), "test TestTransfer ... ok");
    assert_eq!(ok.failure_reason(), None);
    assert_eq!(summarize(&[ok, failed, erred]), (1, 2));
}

#[test]
fn end_to_end_hello_world() {
    let mut tester = Tester::new();
    deploy_target(&mut tester, actor("Target.wasm", &["HelloWorld"]), 103);
    assert_eq!(tester.deployed_actor().unwrap().address(), 103);

    let test_actor = actor("Target.t.wasm", &["TestHelloWorld"]);
    let mut run = tester.test(&test_actor).unwrap();
    assert_eq!(run.step(Event::Deployed(104)), Action::Commit);
    let a = run.step(Event::Committed(vec![1, 2, 3]));
    let n = Method::new_from_name("TestHelloWorld").unwrap().number();
    assert_eq!(
        a,
        Action::ExecuteFresh {
            root: vec![1, 2, 3],
            to: 104,
            method: n
        }
    );
    assert_eq!(run.step(Event::Executed(Ok(exec(0, 7)))), Action::Finish);
    let results = run.into_results().unwrap();
    assert_eq!(results.len(), 1);
    assert!(results[0].passed());
    match results[0].ret() {
        TestResultType::Passed(r) => assert_eq!(r.exit_code, 0),
        _ => panic!("expected a passed result"),
    }
}

#[test]
fn constructor_gating() {
    let mut tester = Tester::new();
    let target = actor("Target.wasm", &["Constructor", "HelloWorld"]);
    let mut run = tester.deploy_target_actor(target).unwrap();
    assert_eq!(
        run.step(Event::Deployed(103)),
        Action::Execute { to: 103, method: 1 }
    );
    assert_eq!(run.step(Event::Executed(Ok(exec(10, 1)))), Action::Finish);
    assert_eq!(run.phase(), Phase::Done);
    assert_eq!(run.step(Event::Committed(vec![1])), Action::Finish);
    match tester.finish_target(run) {
        Err(TesterError::Constructor { name, cause }) => {
            assert_eq!(name, "Target.wasm");
            assert_eq!(cause, Some("exit 10".to_string()));
        }
        other => panic!("expected a constructor error, got {other:?}"),
    }
    assert!(tester.deployed_actor().is_none());
    let test_actor = actor("Target.t.wasm", &["TestOne"]);
    assert!(matches!(
        tester.test(&test_actor),
        Err(TesterError::MissingActor)
    ));
}

#[test]
fn methods_run_on_the_post_setup_root() {
    let mut tester = Tester::new();
    deploy_target(&mut tester, actor("Target.wasm", &["HelloWorld"]), 103);
    let test_actor = actor(
        "Target.t.wasm",
        &["Constructor", "Setup", "TestOne", "Helper", "TestTwo"],
    );
    let mut run = tester.test(&test_actor).unwrap();
    assert_eq!(
        run.step(Event::Deployed(104)),
        Action::Execute { to: 104, method: 1 }
    );
    let setup = Method::new_from_name("Setup").unwrap().number();
    assert_eq!(
        run.step(Event::Executed(Ok(exec(0, 1)))),
        Action::Execute {
            to: 104,
            method: setup
        }
    );
    assert_eq!(run.step(Event::Executed(Ok(exec(0, 1)))), Action::Commit);
    let one = Method::new_from_name("TestOne").unwrap().number();
    let two = Method::new_from_name("TestTwo").unwrap().number();
    assert_eq!(
        run.step(Event::Committed(vec![5, 5])),
        Action::ExecuteFresh {
            root: vec![5, 5],
            to: 104,
            method: one
        }
    );
    assert_eq!(
        run.step(Event::Executed(Ok(exec(0, 3)))),
        Action::ExecuteFresh {
            root: vec![5, 5],
            to: 104,
            method: two
        }
    );
    assert_eq!(run.step(Event::Executed(Ok(exec(24, 3)))), Action::Finish);
    let results = run.into_results().unwrap();
    assert_eq!(results.len(), 2);
    assert!(results[0].passed());
    assert!(!results[1].passed());
    assert_eq!(results[1].method().kind(), MethodType::Test);
}

#[test]
fn setup_failure_and_other_errors() {
    let mut tester = Tester::new();
    deploy_target(&mut tester, actor("Target.wasm", &["HelloWorld"]), 103);
    let test_actor = actor("Setup.t.wasm", &["Setup", "TestOne"]);
    let mut run = tester.test(&test_actor).unwrap();
    let setup = Method::new_from_name("Setup").unwrap().number();
    assert_eq!(
        run.step(Event::Deployed(104)),
        Action::Execute {
            to: 104,
            method: setup
        }
    );
    assert_eq!(
        run.step(Event::Executed(Err("cannot apply".into()))),
        Action::Finish
    );
    match run.into_results() {
        Err(e @ TesterError::Setup { .. }) => {
            assert_eq!(e.message(), "Setup execution failed for actor: Setup.t.wasm")
        }
        other => panic!("expected a set-up error, got {other:?}"),
    }

    let mut run = tester.test(&test_actor).unwrap();
    assert_eq!(run.step(Event::DeployFailed("full".into())), Action::Finish);
    assert!(matches!(
        run.into_results(),
        Err(TesterError::SettingActor { .. })
    ));

    let mut run = tester.test(&test_actor).unwrap();
    assert_eq!(run.step(Event::Committed(vec![])), Action::Finish);
    assert!(matches!(run.into_results(), Err(TesterError::Tester { .. })));

    let run = tester.test(&test_actor).unwrap();
    assert!(matches!(run.into_results(), Err(TesterError::Tester { .. })));
}

#[test]
fn test_fail_validate_wasm_bin() {
    let tester = Tester::new();
    let bad = WasmActor::new("Target.wasm".into(), vec![1, 2, 3], Abi::default());
    let res = tester.deploy_target_actor(bad);
    assert!(res.is_err());
    assert!(res
        .err()
        .unwrap()
        .message()
        .contains("Could not parse wasm bin module"))
}

#[test]
fn valid_module_is_accepted() {
    let good = WasmActor::new("Target.wasm".into(), EMPTY_MODULE.to_vec(), Abi::default());
    assert!(kythera::tester::validate_wasm_bin(&good).is_ok());
    assert_eq!(good.code(), &EMPTY_MODULE);
    assert_eq!(good.name(), "Target.wasm");
}

#[test]
fn sequences_count_up() {
    let mut tester = Tester::new();
    assert_eq!(tester.next_sequence(), 0);
    assert_eq!(tester.next_sequence(), 1);
    assert_eq!(tester.next_sequence(), 2);
}
