use kythera::snapshot::{diff, snapshot_entries, GasChange, MethodCost};
use kythera::{ExecutionResult, Method, TestResult, TestResultType};

fn cost(name: &str, cost: u64) -> MethodCost {
    MethodCost {
        name: name.into(),
        cost,
        passed: true,
    }
}

fn exec(exit_code: u32, gas_used: u64) -> ExecutionResult {
    ExecutionResult {
        exit_code,
        gas_used,
        return_data: None,
        failure_info: None,
        execution_trace: vec![],
    }
}

#[test]
fn snapshot_round_trip_is_same() {
    let entries = vec![
        cost("Target.wasm::TestMethodParameter", 1500),
        cost("Target.wasm::TestOther", 700),
    ];
    for check in [false, true] {
        let d = diff(&entries, &entries, check);
        assert!(d.matches());
        assert_eq!(d.missing, None);
        assert_eq!(d.former_total, d.new_total);
        assert_eq!(d.methods.len(), 2);
        assert!(d.methods.iter().all(|m| m.change == GasChange::Same));
    }
}

#[test]
fn diff_reports_more_and_less() {
    let former = vec![cost("A::TestX", 100), cost("A::TestY", 100)];
    let new = vec![cost("A::TestX", 120), cost("A::TestY", 80)];
    let d = diff(&new, &former, false);
    assert_eq!(d.methods[0].change, GasChange::More { by: 20 });
    assert_eq!(d.methods[1].change, GasChange::Less { by: 20 });
    assert_eq!(d.former_total, 200);
    assert_eq!(d.new_total, 200);
    assert!(d.matches());

    let d = diff(&vec![cost("A::TestX", 120)], &former, true);
    assert!(!d.matches());
}

#[test]
fn missing_entries() {
    let former = vec![cost("A::TestX", 100)];
    let new = vec![cost("A::TestZ", 5), cost("A::TestX", 100)];
    let d = diff(&new, &former, false);
    assert_eq!(d.missing, None);
    assert_eq!(d.methods.len(), 1);
    assert!(d.matches());
    let d = diff(&new, &former, true);
    assert_eq!(d.missing, Some("A::TestZ".to_string()));
    assert!(d.methods.is_empty());
    assert!(!d.matches());
}

#[test]
fn later_entries_of_a_name_win() {
    let former = vec![cost("A::TestX", 100), cost("A::TestX", 300)];
    let d = diff(&vec![cost("A::TestX", 300)], &former, true);
    assert_eq!(d.methods[0].former_cost, 300);
    assert_eq!(d.methods[0].change, GasChange::Same);
}

#[test]
fn entries_from_results() {
    let results = vec![
        TestResult::new(
            Method::new_from_name("TestOne").unwrap(),
            TestResultType::Passed(exec(0, 11)),
        ),
        TestResult::new(
            Method::new_from_name("TestTwo").unwrap(),
            TestResultType::Erred("x".into()),
        ),
        TestResult::new(
            Method::new_from_name("TestThree").unwrap(),
            TestResultType::Failed(exec(3, 13)),
        ),
    ];
    let e = snapshot_entries("Target.wasm", &results);
    assert_eq!(
        e,
        vec![
            MethodCost {
                name: "Target.wasm::TestOne".into(),
                cost: 11,
                passed: true
            },
            MethodCost {
                name: "Target.wasm::TestThree".into(),
                cost: 13,
                passed: false
            },
        ]
    );
}
