use vstd::prelude::*;

verus! {

/// How far one invocation of the build command has come.
#[derive(Clone, Copy, PartialEq, Eq, Structural, Debug)]
pub enum BuildStage {
    /// The kit is not resolved yet.
    Unresolved,
    /// The kit is resolved; nothing has run.
    Resolved,
    /// The generate step has run and succeeded.
    Generated,
    /// The build step has run and succeeded.
    Built,
    /// The generate step has failed. Nothing follows it.
    GenerateFailed,
}

/// What has just happened to an invocation.
#[derive(Clone, Copy, PartialEq, Eq, Structural, Debug)]
pub enum DispatchEvent {
    /// The kit was resolved into an environment.
    KitResolved,
    /// The build tool ran and reported success.
    StepSucceeded,
    /// The build tool ran and reported failure.
    StepFailed,
    /// The build tool could not be started.
    LaunchFailed,
}

/// What an invocation does next.
#[derive(Clone, Copy, PartialEq, Eq, Structural, Debug)]
pub enum DispatchAction {
    /// Run the generate step.
    Generate,
    /// Run the build step.
    Build,
    /// Run nothing more.
    Stop,
}

impl BuildStage {
    /// The place of a stage in the course of a build. A stage is never followed by one
    /// of a lower rank.
    pub open spec fn rank(self) -> nat {
        match self {
            BuildStage::Unresolved => 0,
            BuildStage::Resolved => 1,
            BuildStage::Generated => 2,
            BuildStage::GenerateFailed => 2,
            BuildStage::Built => 3,
        }
    }

    /// Whether a stage ends the invocation, whatever happens.
    pub open spec fn is_final(self) -> bool {
        self == BuildStage::Built || self == BuildStage::GenerateFailed
    }
}

/// The stage after `event` has happened in `stage`, and what is done then.
/// Resolution is followed by the generate step, a generate step that
/// succeeded by the build step; anything else stops the invocation, and an
/// event that does not belong to a stage leaves the stage as it is.
pub open spec fn dispatch_spec(stage: BuildStage, event: DispatchEvent) -> (
    BuildStage,
    DispatchAction,
) {
    match (stage, event) {
        (BuildStage::Unresolved, DispatchEvent::KitResolved) => (
            BuildStage::Resolved,
            DispatchAction::Generate,
        ),
        (BuildStage::Resolved, DispatchEvent::StepSucceeded) => (
            BuildStage::Generated,
            DispatchAction::Build,
        ),
        (BuildStage::Resolved, DispatchEvent::StepFailed) => (
            BuildStage::GenerateFailed,
            DispatchAction::Stop,
        ),
        (BuildStage::Resolved, DispatchEvent::LaunchFailed) => (
            BuildStage::GenerateFailed,
            DispatchAction::Stop,
        ),
        (BuildStage::Generated, DispatchEvent::StepSucceeded) => (
            BuildStage::Built,
            DispatchAction::Stop,
        ),
        _ => (stage, DispatchAction::Stop),
    }
}

/// Moves an invocation on by one event and says what it does next.
pub fn dispatch(stage: BuildStage, event: DispatchEvent) -> (next: (BuildStage, DispatchAction))
    ensures
        next == dispatch_spec(stage, event),
{
    match stage {
        BuildStage::Unresolved => match event {
            DispatchEvent::KitResolved => (BuildStage::Resolved, DispatchAction::Generate),
            _ => (stage, DispatchAction::Stop),
        },
        BuildStage::Resolved => match event {
            DispatchEvent::StepSucceeded => (BuildStage::Generated, DispatchAction::Build),
            DispatchEvent::StepFailed => (BuildStage::GenerateFailed, DispatchAction::Stop),
            DispatchEvent::LaunchFailed => (BuildStage::GenerateFailed, DispatchAction::Stop),
            DispatchEvent::KitResolved => (stage, DispatchAction::Stop),
        },
        BuildStage::Generated => match event {
            DispatchEvent::StepSucceeded => (BuildStage::Built, DispatchAction::Stop),
            _ => (stage, DispatchAction::Stop),
        },
        BuildStage::Built => (stage, DispatchAction::Stop),
        BuildStage::GenerateFailed => (stage, DispatchAction::Stop),
    }
}

/// A build only moves forward, and by one stage at most: no event takes
/// an invocation back to an earlier stage.
pub proof fn lemma_no_rollback(stage: BuildStage, event: DispatchEvent)
    ensures
        stage.rank() <= dispatch_spec(stage, event).0.rank() <= stage.rank() + 1,
{
}

/// A stage that ends the invocation stays, and nothing is run from it. In
/// particular nothing is built after a generate step that failed.
pub proof fn lemma_final_stages_stay(stage: BuildStage, event: DispatchEvent)
    requires
        stage.is_final(),
    ensures
        dispatch_spec(stage, event) == (stage, DispatchAction::Stop),
{
}

/// No step is run twice: whenever a step is asked for, the stage has moved
/// on, so that the same step cannot be asked for again.
pub proof fn lemma_no_retry(stage: BuildStage, event: DispatchEvent)
    requires
        dispatch_spec(stage, event).1 != DispatchAction::Stop,
    ensures
        dispatch_spec(stage, event).0.rank() == stage.rank() + 1,
        dispatch_spec(stage, event).1 == DispatchAction::Build <==> dispatch_spec(
            stage,
            event,
        ).0 == BuildStage::Generated,
        dispatch_spec(stage, event).1 == DispatchAction::Generate <==> dispatch_spec(
            stage,
            event,
        ).0 == BuildStage::Resolved,
{
}

} // verus!
