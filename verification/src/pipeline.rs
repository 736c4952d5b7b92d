//! The fixed order of the login pipeline's observable progress: four named
//! signals, one per stage, followed by completion. Stage N+1 never begins
//! before stage N's result is validated; the surrounding process advances
//! the stage only with `next_stage`.

use vstd::prelude::*;

verus! {

/// The stages of one login attempt, in their fixed order.
#[derive(Debug, Clone, Copy, PartialEq, Eq, Structural)]
pub enum LoginStage {
    Authorizing,
    GettingToken,
    GettingSession,
    GettingCharacters,
    Complete,
}

/// The progress signal each stage announces; completion announces nothing.
pub open spec fn progress_signal_of(s: LoginStage) -> Seq<char> {
    match s {
        LoginStage::Authorizing => "Authorizing..."@,
        LoginStage::GettingToken => "Getting Token..."@,
        LoginStage::GettingSession => "Getting Session..."@,
        LoginStage::GettingCharacters => "Getting Characters..."@,
        LoginStage::Complete => ""@,
    }
}

/// The stage that follows a completed stage; completion is terminal.
pub open spec fn next_stage_of(s: LoginStage) -> LoginStage {
    match s {
        LoginStage::Authorizing => LoginStage::GettingToken,
        LoginStage::GettingToken => LoginStage::GettingSession,
        LoginStage::GettingSession => LoginStage::GettingCharacters,
        LoginStage::GettingCharacters => LoginStage::Complete,
        LoginStage::Complete => LoginStage::Complete,
    }
}

/// The signal to emit when a stage begins.
pub fn progress_signal(stage: &LoginStage) -> (r: &'static str)
    ensures
        r@ == progress_signal_of(*stage),
{
    match stage {
        LoginStage::Authorizing => "Authorizing...",
        LoginStage::GettingToken => "Getting Token...",
        LoginStage::GettingSession => "Getting Session...",
        LoginStage::GettingCharacters => "Getting Characters...",
        LoginStage::Complete => "",
    }
}

/// Advances the pipeline after a stage's result has been validated.
pub fn next_stage(stage: &LoginStage) -> (r: LoginStage)
    ensures
        r == next_stage_of(*stage),
{
    match stage {
        LoginStage::Authorizing => LoginStage::GettingToken,
        LoginStage::GettingToken => LoginStage::GettingSession,
        LoginStage::GettingSession => LoginStage::GettingCharacters,
        LoginStage::GettingCharacters => LoginStage::Complete,
        LoginStage::Complete => LoginStage::Complete,
    }
}

} // verus!
