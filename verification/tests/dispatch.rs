use cptb::dispatch::{dispatch, BuildStage, DispatchAction, DispatchEvent};

const STAGES: [BuildStage; 5] = [
    BuildStage::Unresolved,
    BuildStage::Resolved,
    BuildStage::Generated,
    BuildStage::Built,
    BuildStage::GenerateFailed,
];

const EVENTS: [DispatchEvent; 4] = [
    DispatchEvent::KitResolved,
    DispatchEvent::StepSucceeded,
    DispatchEvent::StepFailed,
    DispatchEvent::LaunchFailed,
];

#[test]
fn a_build_that_goes_well() {
    let (stage, action) = dispatch(BuildStage::Unresolved, DispatchEvent::KitResolved);
    assert_eq!((stage, action), (BuildStage::Resolved, DispatchAction::Generate));
    let (stage, action) = dispatch(stage, DispatchEvent::StepSucceeded);
    assert_eq!((stage, action), (BuildStage::Generated, DispatchAction::Build));
    let (stage, action) = dispatch(stage, DispatchEvent::StepSucceeded);
    assert_eq!((stage, action), (BuildStage::Built, DispatchAction::Stop));
}

#[test]
fn nothing_is_built_after_a_failed_generate_step() {
    let failed = dispatch(BuildStage::Resolved, DispatchEvent::StepFailed);
    assert_eq!(failed, (BuildStage::GenerateFailed, DispatchAction::Stop));
    let not_started = dispatch(BuildStage::Resolved, DispatchEvent::LaunchFailed);
    assert_eq!(not_started, (BuildStage::GenerateFailed, DispatchAction::Stop));
    for event in EVENTS {
        assert_eq!(
            dispatch(BuildStage::GenerateFailed, event),
            (BuildStage::GenerateFailed, DispatchAction::Stop)
        );
    }
}

#[test]
fn a_failed_build_step_is_not_tried_again() {
    assert_eq!(
        dispatch(BuildStage::Generated, DispatchEvent::StepFailed),
        (BuildStage::Generated, DispatchAction::Stop)
    );
    assert_eq!(
        dispatch(BuildStage::Generated, DispatchEvent::LaunchFailed),
        (BuildStage::Generated, DispatchAction::Stop)
    );
}

#[test]
fn a_finished_build_stays_finished() {
    for event in EVENTS {
        assert_eq!(dispatch(BuildStage::Built, event), (BuildStage::Built, DispatchAction::Stop));
    }
}

#[test]
fn events_out_of_place_change_nothing() {
    assert_eq!(
        dispatch(BuildStage::Unresolved, DispatchEvent::StepSucceeded),
        (BuildStage::Unresolved, DispatchAction::Stop)
    );
    assert_eq!(
        dispatch(BuildStage::Resolved, DispatchEvent::KitResolved),
        (BuildStage::Resolved, DispatchAction::Stop)
    );
    assert_eq!(
        dispatch(BuildStage::Generated, DispatchEvent::KitResolved),
        (BuildStage::Generated, DispatchAction::Stop)
    );
}

#[test]
fn a_step_is_asked_for_only_when_the_stage_moves() {
    for stage in STAGES {
        for event in EVENTS {
            let (next, action) = dispatch(stage, event);
            if action != DispatchAction::Stop {
                assert_ne!(next, stage);
            }
            if action == DispatchAction::Build {
                assert_eq!(next, BuildStage::Generated);
            }
            if action == DispatchAction::Generate {
                assert_eq!(next, BuildStage::Resolved);
            }
        }
    }
}
