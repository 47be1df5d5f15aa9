//! The whole provisioning in one run: the stages of the ceremony from a
//! device in its factory state to signed certificates, and the directories
//! that the run needs.

use vstd::prelude::*;
use crate::policy::{AUTH_ID, DEFAULT_AUTH_ID};

verus! {

/// What to do about a directory that the run needs.
#[derive(Clone, Copy, Debug, PartialEq, Eq, Structural)]
pub enum DirPlan {
    /// Nothing is there: create the directory and those above it.
    Create,
    /// The directory is there.
    Keep,
    /// Something else is there: give up.
    Refuse,
}

/// What to do about a path that is to be a directory, given whether
/// anything is there and whether it is a directory.
pub open spec fn dir_plan(exists: bool, is_dir: bool) -> DirPlan {
    if !exists {
        DirPlan::Create
    } else if !is_dir {
        DirPlan::Refuse
    } else {
        DirPlan::Keep
    }
}

/// Decides what to do about a directory that the run needs.
pub fn make_dir(exists: bool, is_dir: bool) -> (r: DirPlan)
    ensures
        r == dir_plan(exists, is_dir),
{
    if !exists {
        DirPlan::Create
    } else if !is_dir {
        DirPlan::Refuse
    } else {
        DirPlan::Keep
    }
}

/// The stages of the provisioning, in their order.
#[derive(Clone, Copy, Debug, PartialEq, Eq, Structural)]
pub enum Stage {
    /// Nothing was done yet.
    Start,
    /// Open a session with the factory credential.
    OpenFactorySession,
    /// Create the wrap key, split it and hand out the shares.
    SplitWrapKey,
    /// Collect the attestation certificate of the device.
    CollectAttestation,
    /// Get the new password: from the operator if a challenge was asked
    /// for, else from the device.
    ChooseNewPassword,
    /// Print the password that the device drew.
    PrintNewPassword,
    /// Replace the factory credential by the administrative one.
    ReplaceDefaultCredential,
    /// Open a session with the administrative credential.
    OpenAdminSession,
    /// Generate the keys that the specifications describe.
    GenerateKeys,
    /// Hand the password to the signing engine.
    PublishPassword,
    /// Found an authority on each key.
    InitializeAuthorities,
    /// Sign the requests.
    SignAll,
    /// Everything was done.
    Complete,
    /// A stage failed; nothing after it was done.
    Failed,
}

/// The place of a stage in the order of the provisioning.
pub open spec fn stage_rank(stage: Stage) -> int {
    match stage {
        Stage::Start => 0,
        Stage::OpenFactorySession => 1,
        Stage::SplitWrapKey => 2,
        Stage::CollectAttestation => 3,
        Stage::ChooseNewPassword => 4,
        Stage::PrintNewPassword => 5,
        Stage::ReplaceDefaultCredential => 6,
        Stage::OpenAdminSession => 7,
        Stage::GenerateKeys => 8,
        Stage::PublishPassword => 9,
        Stage::InitializeAuthorities => 10,
        Stage::SignAll => 11,
        Stage::Complete => 12,
        Stage::Failed => 13,
    }
}

/// The stage that follows a stage that succeeded. A password that the
/// operator entered is not printed.
pub open spec fn stage_after(stage: Stage, challenge: bool) -> Stage {
    match stage {
        Stage::Start => Stage::OpenFactorySession,
        Stage::OpenFactorySession => Stage::SplitWrapKey,
        Stage::SplitWrapKey => Stage::CollectAttestation,
        Stage::CollectAttestation => Stage::ChooseNewPassword,
        Stage::ChooseNewPassword => if challenge {
            Stage::ReplaceDefaultCredential
        } else {
            Stage::PrintNewPassword
        },
        Stage::PrintNewPassword => Stage::ReplaceDefaultCredential,
        Stage::ReplaceDefaultCredential => Stage::OpenAdminSession,
        Stage::OpenAdminSession => Stage::GenerateKeys,
        Stage::GenerateKeys => Stage::PublishPassword,
        Stage::PublishPassword => Stage::InitializeAuthorities,
        Stage::InitializeAuthorities => Stage::SignAll,
        Stage::SignAll => Stage::Complete,
        Stage::Complete => Stage::Complete,
        Stage::Failed => Stage::Failed,
    }
}

/// The stage to enter when a stage has ended: the next one if it
/// succeeded, and failure if it did not. The beginning has nothing to
/// fail at, and the end is final.
pub open spec fn ceremony_stage(stage: Stage, challenge: bool, succeeded: bool) -> Stage {
    if stage is Complete || stage is Failed {
        stage
    } else if succeeded || stage is Start {
        stage_after(stage, challenge)
    } else {
        Stage::Failed
    }
}

/// Leads through the provisioning: given the stage that has ended and
/// whether it succeeded, says which stage to enter.
pub fn do_ceremony(stage: Stage, challenge: bool, succeeded: bool) -> (r: Stage)
    ensures
        r == ceremony_stage(stage, challenge, succeeded),
{
    match stage {
        Stage::Complete => Stage::Complete,
        Stage::Failed => Stage::Failed,
        Stage::Start => Stage::OpenFactorySession,
        _ => if !succeeded {
            Stage::Failed
        } else {
            match stage {
                Stage::OpenFactorySession => Stage::SplitWrapKey,
                Stage::SplitWrapKey => Stage::CollectAttestation,
                Stage::CollectAttestation => Stage::ChooseNewPassword,
                Stage::ChooseNewPassword => if challenge {
                    Stage::ReplaceDefaultCredential
                } else {
                    Stage::PrintNewPassword
                },
                Stage::PrintNewPassword => Stage::ReplaceDefaultCredential,
                Stage::ReplaceDefaultCredential => Stage::OpenAdminSession,
                Stage::OpenAdminSession => Stage::GenerateKeys,
                Stage::GenerateKeys => Stage::PublishPassword,
                Stage::PublishPassword => Stage::InitializeAuthorities,
                Stage::InitializeAuthorities => Stage::SignAll,
                _ => Stage::Complete,
            }
        },
    }
}

/// The credential that opens the session of a stage: the factory
/// credential until it is replaced, the administrative one afterwards.
pub open spec fn session_credential(stage: Stage) -> Option<u16> {
    if 1 <= stage_rank(stage) <= 6 {
        Some(DEFAULT_AUTH_ID)
    } else if 7 <= stage_rank(stage) <= 11 {
        Some(AUTH_ID)
    } else {
        None
    }
}

/// The credential that opens the session of a stage.
pub fn stage_credential(stage: Stage) -> (r: Option<u16>)
    ensures
        r == session_credential(stage),
{
    match stage {
        Stage::OpenFactorySession
        | Stage::SplitWrapKey
        | Stage::CollectAttestation
        | Stage::ChooseNewPassword
        | Stage::PrintNewPassword
        | Stage::ReplaceDefaultCredential => Some(DEFAULT_AUTH_ID),
        Stage::OpenAdminSession
        | Stage::GenerateKeys
        | Stage::PublishPassword
        | Stage::InitializeAuthorities
        | Stage::SignAll => Some(AUTH_ID),
        _ => None,
    }
}

/// The provisioning only moves forward: the stage entered comes later in
/// the order than the stage that ended, unless the run is over. No
/// stage but the printing of a password that was not drawn is passed
/// over.
pub proof fn stages_in_order(stage: Stage, challenge: bool, succeeded: bool)
    ensures
        ({
            let next = ceremony_stage(stage, challenge, succeeded);
            &&& stage is Complete || stage is Failed ==> next == stage
            &&& !(stage is Complete || stage is Failed) ==> stage_rank(next) > stage_rank(stage)
            &&& !(next is Failed) && !(stage is Complete) ==> stage_rank(next) == stage_rank(
                stage,
            ) + 1 || (stage is ChooseNewPassword && challenge && next
                is ReplaceDefaultCredential)
        }),
{
}

} // verus!
