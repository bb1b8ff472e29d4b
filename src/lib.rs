//! A test harness for actors of an actor-model virtual machine: method
//! descriptions, cheatcode interception, test orchestration and gas accounting.

pub mod abi;
pub mod actor;
pub mod cheatcodes;
pub mod context;
pub mod gas_report;
pub mod snapshot;
pub mod tester;
pub mod trace;

pub use abi::{pascal_case_split, Abi, AbiError, Method, MethodType};
pub use actor::{DeployedActor, WasmActor};
pub use gas_report::GasReport;
pub use tester::{Action, Event, Run, TestResult, TestResultType, Tester, TesterError};
pub use trace::{ExecutionEvent, ExecutionResult};
