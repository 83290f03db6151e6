use autokernel::controller::{advance, failure_kind, pending_step, FailureKind, Stage, Step};

#[test]
fn stages_run_in_order() {
    let mut stage = Stage::Created;
    let mut steps = Vec::new();
    while let Some(step) = pending_step(stage) {
        steps.push(step);
        stage = advance(stage, true);
    }
    assert_eq!(
        steps,
        vec![Step::LoadPrelude, Step::InstallApi, Step::DefineSymbols, Step::LoadScript, Step::RunScript]
    );
    assert_eq!(stage, Stage::Completed);
}

#[test]
fn failure_ends_the_application() {
    assert_eq!(advance(Stage::NamespaceInstalled, false), Stage::Failed);
    assert_eq!(advance(Stage::Created, false), Stage::Failed);
    assert_eq!(advance(Stage::Failed, true), Stage::Failed);
    assert_eq!(advance(Stage::Completed, false), Stage::Completed);
    assert_eq!(pending_step(Stage::Failed), None);
}

#[test]
fn only_the_user_script_is_blamed_on_the_script() {
    assert_eq!(failure_kind(Step::RunScript), FailureKind::Script);
    assert_eq!(failure_kind(Step::LoadScript), FailureKind::Script);
    assert_eq!(failure_kind(Step::LoadPrelude), FailureKind::Internal);
    assert_eq!(failure_kind(Step::DefineSymbols), FailureKind::Internal);
    assert_eq!(failure_kind(Step::InstallApi), FailureKind::Internal);
}
