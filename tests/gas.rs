use kythera::cheatcodes::ActorAddress;
use kythera::context::TokenAmount;
use kythera::gas_report::{method_stats, sort_samples, trace_samples, GasStats};
use kythera::{
    Abi, ExecutionEvent, ExecutionResult, GasReport, Method, TestResult, TestResultType,
    WasmActor,
};

const TARGET_ACTOR_ADDRESS: u64 = 44;

fn call(to: u64, method: u64) -> ExecutionEvent {
    ExecutionEvent::Call {
        from: 0,
        to: ActorAddress::Id(to),
        method,
        value: TokenAmount::default(),
    }
}

fn charge(amount: u64) -> ExecutionEvent {
    ExecutionEvent::GasCharge {
        name: String::new(),
        amount,
    }
}

fn ret() -> ExecutionEvent {
    ExecutionEvent::CallReturn { exit_code: 0 }
}

fn passed(method: &str, trace: Vec<ExecutionEvent>) -> TestResult {
    TestResult::new(
        Method::new_from_name(method).unwrap(),
        TestResultType::Passed(ExecutionResult {
            exit_code: 0,
            gas_used: 0,
            return_data: None,
            failure_info: None,
            execution_trace: trace,
        }),
    )
}

#[test]
fn analyzes_gas_consumption() {
    let m1 = Method::new_from_name("Method1").unwrap();
    let m1_number = m1.number();
    let m2 = Method::new_from_name("Method2").unwrap();
    let m2_number = m2.number();
    let target = WasmActor::new(
        "Target".into(),
        vec![],
        Abi {
            constructor: None,
            set_up: None,
            methods: vec![m1, m2],
        },
    )
    .deploy(44);
    let mut gr = GasReport::new();
    let result = passed(
        "TestMethod",
        vec![
            call(TARGET_ACTOR_ADDRESS, m1_number),
            call(TARGET_ACTOR_ADDRESS, m2_number),
            charge(10),
            ExecutionEvent::CallError {
                error: "error".into(),
            },
            charge(20),
            ExecutionEvent::CallReturn { exit_code: 0 },
        ],
    );
    gr.analyze(target.clone(), &[result]);
    let m1m = gr.method_samples(44, 0).unwrap();
    assert_eq!(m1m.len(), 1);
    assert_eq!(m1m[0], 30);
    let m2m = gr.method_samples(44, 1).unwrap();
    assert_eq!(m2m.len(), 1);
    assert_eq!(m2m[0], 10);
    assert_eq!(gr.method_samples(44, 2), None);
    assert_eq!(gr.method_samples(45, 0), None);
}

#[test]
fn sibling_calls_inside_an_unrelated_call() {
    let m1 = Method::new_from_name("Method1").unwrap();
    let m2 = Method::new_from_name("Method2").unwrap();
    let methods = vec![m1.clone(), m2.clone()];
    let trace = vec![
        charge(5),
        call(100, 9),
        charge(1),
        call(44, m1.number()),
        charge(10),
        ret(),
        call(77, m1.number()),
        charge(3),
        ExecutionEvent::CallError {
            error: "boom".into(),
        },
        call(44, m2.number()),
        charge(20),
        ret(),
        ret(),
    ];
    let samples = trace_samples(&trace, 44, &methods);
    assert_eq!(samples, vec![(m1.number(), 10), (m2.number(), 20)]);
}

#[test]
fn unmatched_returns_and_charges_are_ignored() {
    let m1 = Method::new_from_name("Method1").unwrap();
    let methods = vec![m1.clone()];
    let trace = vec![ret(), charge(4), call(44, m1.number()), charge(6), ret(), ret()];
    assert_eq!(trace_samples(&trace, 44, &methods), vec![(m1.number(), 6)]);
    assert_eq!(trace_samples(&vec![], 44, &methods), vec![]);
}

#[test]
fn erred_results_give_no_samples() {
    let m1 = Method::new_from_name("Method1").unwrap();
    let n = m1.number();
    let target = WasmActor::new(
        "Target".into(),
        vec![],
        Abi {
            constructor: None,
            set_up: None,
            methods: vec![m1],
        },
    )
    .deploy(44);
    let erred = TestResult::new(
        Method::new_from_name("TestX").unwrap(),
        TestResultType::Erred("no".into()),
    );
    let ok = passed("TestY", vec![call(44, n), charge(8), ret()]);
    let mut gr = GasReport::new();
    gr.analyze(target.clone(), &[erred, ok]);
    let ok2 = passed("TestZ", vec![call(44, n), charge(4), ret()]);
    gr.analyze(target, &[ok2]);
    assert_eq!(gr.method_samples(44, 0), Some(vec![8, 4]));
    let tables = gr.finalize();
    assert_eq!(tables.len(), 1);
    assert_eq!(tables[0].actor_name, "Target");
    assert_eq!(tables[0].rows[0].name, "Method1");
    assert_eq!(
        tables[0].rows[0].stats,
        GasStats {
            min: 4,
            max: 8,
            total: 12,
            median: 6,
            count: 2
        }
    );
}

#[test]
fn statistics_of_samples() {
    assert_eq!(sort_samples(&vec![30, 10, 20, 10]), vec![10, 10, 20, 30]);
    assert_eq!(
        method_stats(&vec![30, 10, 20]),
        GasStats {
            min: 10,
            max: 30,
            total: 60,
            median: 20,
            count: 3
        }
    );
    assert_eq!(
        method_stats(&vec![7, 1, 4, 2]),
        GasStats {
            min: 1,
            max: 7,
            total: 14,
            median: 3,
            count: 4
        }
    );
    assert_eq!(
        method_stats(&vec![]),
        GasStats {
            min: 0,
            max: 0,
            total: 0,
            median: 0,
            count: 0
        }
    );
    assert_eq!(
        method_stats(&vec![u64::MAX, u64::MAX]),
        GasStats {
            min: u64::MAX,
            max: u64::MAX,
            total: 2 * (u64::MAX as u128),
            median: u64::MAX,
            count: 2
        }
    );
}

#[test]
fn charge_totals_must_fit() {
    let ok = passed("TestA", vec![charge(u64::MAX - 1), charge(1)]);
    assert!(kythera::gas_report::traces_bounded_exec(&[ok]));
    let over = passed("TestB", vec![charge(u64::MAX), charge(1)]);
    assert!(!kythera::gas_report::traces_bounded_exec(&[over]));
    let erred = TestResult::new(
        Method::new_from_name("TestC").unwrap(),
        TestResultType::Erred("x".into()),
    );
    assert!(kythera::gas_report::traces_bounded_exec(&[erred]));
}
