//! The stages of one script application. Each application gets a fresh
//! guest context that moves through the stages in order and never restarts:
//! load the prelude, install the capability operations, define the symbol
//! bindings, run the user's script.

use vstd::prelude::*;

verus! {

#[derive(Clone, Copy, Debug, PartialEq, Eq, Structural)]
pub enum Stage {
    Created,
    PreludeLoaded,
    ApiInstalled,
    NamespaceInstalled,
    ScriptRunning,
    Completed,
    Failed,
}

/// The work the host performs to leave a stage.
#[derive(Clone, Copy, Debug, PartialEq, Eq, Structural)]
pub enum Step {
    LoadPrelude,
    InstallApi,
    DefineSymbols,
    /// Load the user's script, tagged with its source name.
    LoadScript,
    /// Execute the loaded script.
    RunScript,
}

/// Where a failed step puts the blame.
#[derive(Clone, Copy, Debug, PartialEq, Eq, Structural)]
pub enum FailureKind {
    /// The prelude or generated code failed: a fault of the embedding.
    Internal,
    /// The user's script could not be loaded or failed while running: the
    /// expected, reportable failure.
    Script,
}

pub open spec fn rank(s: Stage) -> nat {
    match s {
        Stage::Created => 0,
        Stage::PreludeLoaded => 1,
        Stage::ApiInstalled => 2,
        Stage::NamespaceInstalled => 3,
        Stage::ScriptRunning => 4,
        Stage::Completed => 5,
        Stage::Failed => 5,
    }
}

pub open spec fn is_final(s: Stage) -> bool {
    s == Stage::Completed || s == Stage::Failed
}

pub open spec fn step_spec(s: Stage) -> Option<Step> {
    match s {
        Stage::Created => Some(Step::LoadPrelude),
        Stage::PreludeLoaded => Some(Step::InstallApi),
        Stage::ApiInstalled => Some(Step::DefineSymbols),
        Stage::NamespaceInstalled => Some(Step::LoadScript),
        Stage::ScriptRunning => Some(Step::RunScript),
        Stage::Completed | Stage::Failed => None,
    }
}

pub open spec fn next_stage(s: Stage, ok: bool) -> Stage {
    if is_final(s) {
        s
    } else if !ok {
        Stage::Failed
    } else {
        match s {
            Stage::Created => Stage::PreludeLoaded,
            Stage::PreludeLoaded => Stage::ApiInstalled,
            Stage::ApiInstalled => Stage::NamespaceInstalled,
            Stage::NamespaceInstalled => Stage::ScriptRunning,
            _ => Stage::Completed,
        }
    }
}

/// The step to perform in `stage`; none once the application has ended.
pub fn pending_step(stage: Stage) -> (r: Option<Step>)
    ensures
        r == step_spec(stage),
        r is None <==> is_final(stage),
{
    match stage {
        Stage::Created => Some(Step::LoadPrelude),
        Stage::PreludeLoaded => Some(Step::InstallApi),
        Stage::ApiInstalled => Some(Step::DefineSymbols),
        Stage::NamespaceInstalled => Some(Step::LoadScript),
        Stage::ScriptRunning => Some(Step::RunScript),
        Stage::Completed | Stage::Failed => None,
    }
}

/// The stage reached once the step of `stage` has been performed with
/// outcome `ok`. An ended application stays where it is.
pub fn advance(stage: Stage, ok: bool) -> (r: Stage)
    ensures
        r == next_stage(stage, ok),
        r != Stage::Created,
        !is_final(stage) ==> rank(r) > rank(stage),
        !is_final(stage) && ok ==> rank(r) == rank(stage) + 1,
        !is_final(stage) && !ok ==> r == Stage::Failed,
{
    if stage == Stage::Completed || stage == Stage::Failed {
        return stage;
    }
    if !ok {
        return Stage::Failed;
    }
    match stage {
        Stage::Created => Stage::PreludeLoaded,
        Stage::PreludeLoaded => Stage::ApiInstalled,
        Stage::ApiInstalled => Stage::NamespaceInstalled,
        Stage::NamespaceInstalled => Stage::ScriptRunning,
        _ => Stage::Completed,
    }
}

/// Who is to blame when `step` fails.
pub fn failure_kind(step: Step) -> (r: FailureKind)
    ensures
        r == FailureKind::Script <==> (step == Step::LoadScript || step == Step::RunScript),
{
    match step {
        Step::LoadScript | Step::RunScript => FailureKind::Script,
        _ => FailureKind::Internal,
    }
}

} // verus!
