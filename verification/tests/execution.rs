use safe_transfer::execution::Execution;
use safe_transfer::processor::safe_transfer::{Command, TokenProgramVariant, TransferPlan};

fn plan(create_destination: bool, variant: TokenProgramVariant, amount: u64) -> TransferPlan {
    TransferPlan { create_destination, variant, amount }
}

#[test]
fn run_issues_commands_in_order() {
    let mut run = Execution::begin(&plan(true, TokenProgramVariant::Legacy, 1000));
    assert_eq!(run.next_command(), Some(Command::CreateDestination));
    run.report_success();
    assert_eq!(run.next_command(), Some(Command::TransferLegacy { amount: 1000 }));
    run.report_success();
    assert_eq!(run.next_command(), None);
    assert!(run.completed());
}

#[test]
fn run_without_provisioning_goes_straight_to_transfer() {
    let mut run = Execution::begin(&plan(false, TokenProgramVariant::V2, 0));
    assert_eq!(run.next_command(), Some(Command::TransferV2 { amount: 0 }));
    run.report_success();
    assert_eq!(run.next_command(), None);
    assert!(run.completed());
}

#[test]
fn failed_provisioning_stops_the_run() {
    let mut run = Execution::begin(&plan(true, TokenProgramVariant::V2, 7));
    assert_eq!(run.next_command(), Some(Command::CreateDestination));
    run.report_failure();
    // The transfer command is never handed out.
    assert_eq!(run.next_command(), None);
    assert_eq!(run.next_command(), None);
    assert!(!run.completed());
}

#[test]
fn failed_transfer_leaves_run_incomplete() {
    let mut run = Execution::begin(&plan(false, TokenProgramVariant::Legacy, 7));
    assert_eq!(run.next_command(), Some(Command::TransferLegacy { amount: 7 }));
    run.report_failure();
    assert_eq!(run.next_command(), None);
    assert!(!run.completed());
}

#[test]
fn stray_success_reports_change_nothing_after_the_end() {
    let mut run = Execution::begin(&plan(false, TokenProgramVariant::Legacy, 7));
    run.report_success();
    assert!(run.completed());
    run.report_success();
    assert!(run.completed());
    assert_eq!(run.next_command(), None);
}
