//! The provisioning workflow: stages, events, issuer calls and errors.
//!
//! A request moves `Requested -> Issuing -> RolesPending -> OwnershipPending
//! -> Completed`, advancing one stage per completed external call; a failure
//! at any non-terminal stage moves it to the absorbing `Failed` stage.  Each
//! suspension point hands the host an [`IssuerCall`] to perform, and the
//! host later delivers the call's outcome as an [`AsyncCallResult`]; the
//! request carries its whole context across the suspension, because no
//! in-process memory survives between two execution turns.

use vstd::prelude::*;

verus! {

/// Where a provisioning request stands in its lifecycle.
#[derive(Clone, Copy, Debug, PartialEq, Eq, Structural)]
pub enum Stage {
    /// Received, synchronous checks not yet passed.
    Requested,
    /// The issue call is in flight.
    Issuing,
    /// The handle is committed; the role-configuration call is in flight.
    RolesPending,
    /// The ownership-transfer call is in flight.
    OwnershipPending,
    /// All three external calls succeeded.
    Completed,
    /// A step failed; the request is over and never resumes.
    Failed,
}

/// The stage a request reaches when the step at `stage` succeeds or fails.
/// `Completed` and `Failed` are terminal: no trigger leaves them.
pub open spec fn stage_after(stage: Stage, success: bool) -> Stage {
    match stage {
        Stage::Requested => if success {
            Stage::Issuing
        } else {
            Stage::Failed
        },
        Stage::Issuing => if success {
            Stage::RolesPending
        } else {
            Stage::Failed
        },
        Stage::RolesPending => if success {
            Stage::OwnershipPending
        } else {
            Stage::Failed
        },
        Stage::OwnershipPending => if success {
            Stage::Completed
        } else {
            Stage::Failed
        },
        Stage::Completed => Stage::Completed,
        Stage::Failed => Stage::Failed,
    }
}

/// Four successive successes drive a request from `Requested` to
/// `Completed`; one failure at any non-terminal stage ends it in `Failed`,
/// and the two terminal stages absorb every further trigger.
pub proof fn lemma_stage_progression()
    ensures
        stage_after(
            stage_after(stage_after(stage_after(Stage::Requested, true), true), true),
            true,
        ) == Stage::Completed,
        forall|s: Stage|
            s != Stage::Completed && s != Stage::Failed ==> #[trigger] stage_after(s, false)
                == Stage::Failed,
        forall|b: bool| #[trigger] stage_after(Stage::Completed, b) == Stage::Completed,
        forall|b: bool| #[trigger] stage_after(Stage::Failed, b) == Stage::Failed,
{
}

/// The context of one in-flight request, reconstructed from the arguments
/// carried on each continuation.
pub struct ProvisioningRequest {
    /// The caller-chosen identifier the collection will be registered under.
    pub identifier: Vec<u8>,
    /// Display name forwarded to the issuer.
    pub name: Vec<u8>,
    /// Ticker symbol forwarded to the issuer.
    pub ticker: Vec<u8>,
    /// The identity that receives the roles and, at the end, ownership.
    pub owner: Vec<u8>,
    /// Payment forwarded to the issuer with the issue call.
    pub payment: u128,
    /// Where the request stands.
    pub stage: Stage,
    /// The resource handle, known from the end of `Issuing` on.
    pub handle: Option<Vec<u8>>,
}

impl ProvisioningRequest {
    /// The handle is exactly as far along as the stage: absent before the
    /// issuer resolved one, present from then on.
    pub open spec fn wf(&self) -> bool {
        match self.stage {
            Stage::Requested | Stage::Issuing => self.handle is None,
            Stage::RolesPending | Stage::OwnershipPending | Stage::Completed => self.handle
                is Some,
            Stage::Failed => true,
        }
    }
}

/// The property flags handed to the issuer with every issue call.
#[derive(Clone, Copy, Debug, PartialEq, Eq, Structural)]
pub struct CollectionProperties {
    pub can_change_owner: bool,
    pub can_freeze: bool,
    pub can_pause: bool,
    pub can_transfer_create_role: bool,
    pub can_upgrade: bool,
    pub can_wipe: bool,
    pub can_add_special_roles: bool,
}

/// Every property flag is enabled; this pins each field of the struct.
pub open spec fn all_properties_enabled(p: CollectionProperties) -> bool {
    p.can_change_owner && p.can_freeze && p.can_pause && p.can_transfer_create_role
        && p.can_upgrade && p.can_wipe && p.can_add_special_roles
}

/// The one property set this workflow ever issues with: everything enabled.
pub fn full_properties() -> (r: CollectionProperties)
    ensures
        all_properties_enabled(r),
{
    CollectionProperties {
        can_change_owner: true,
        can_freeze: true,
        can_pause: true,
        can_transfer_create_role: true,
        can_upgrade: true,
        can_wipe: true,
        can_add_special_roles: true,
    }
}

/// A capability granted on a resource handle.
#[derive(Clone, Copy, Debug, PartialEq, Eq, Structural)]
pub enum CollectionRole {
    /// Permission to burn units of the collection.
    NftBurn,
    /// Permission to create units of the collection.
    NftCreate,
}

/// The roles requested for the owner of every new collection.
pub open spec fn collection_roles() -> Seq<CollectionRole> {
    seq![CollectionRole::NftBurn, CollectionRole::NftCreate]
}

/// Builds the role list for the role-configuration call.
pub fn collection_role_list() -> (r: Vec<CollectionRole>)
    ensures
        r@ == collection_roles(),
{
    let mut r: Vec<CollectionRole> = Vec::new();
    r.push(CollectionRole::NftBurn);
    r.push(CollectionRole::NftCreate);
    proof {
        assert(r@ =~= collection_roles());
    }
    r
}

/// One asynchronous call the workflow asks the host to make against the
/// external issuer.  The host performs it, then resumes the workflow with
/// the outcome.
pub enum IssuerCall {
    /// Issue a new collection; the issuer eventually answers with a resource
    /// handle.
    Issue { payment: u128, name: Vec<u8>, ticker: Vec<u8>, properties: CollectionProperties },
    /// Grant `roles` on `handle` to `owner`.
    SetRoles { owner: Vec<u8>, handle: Vec<u8>, roles: Vec<CollectionRole> },
    /// Transfer ownership of `handle` to `owner`.
    TransferOwnership { handle: Vec<u8>, owner: Vec<u8> },
}

/// The diagnostic an external call reports when it fails.
#[derive(Debug)]
pub struct CallError {
    /// Machine-readable code supplied by the issuer.
    pub code: u32,
    /// Diagnostic text supplied by the issuer.
    pub message: Vec<u8>,
}

/// The eventual outcome of one asynchronous issuer call, delivered exactly
/// once by the host.
#[derive(Debug)]
pub enum AsyncCallResult<T> {
    /// The call succeeded with this value.
    Success(T),
    /// The call failed with this diagnostic.
    Failure(CallError),
}

/// Why a request was rejected or aborted.  The first two kinds come from the
/// synchronous checks, before any external call or payment; the last three
/// are fatal stage failures and carry the issuer's diagnostic.
#[derive(Debug)]
pub enum ProvisionError {
    /// The caller is not in the creator set.
    NotAuthorized,
    /// The identifier is already resolved in the registry.
    AlreadyExists,
    /// The issue call failed; nothing was recorded.
    IssueFailed(CallError),
    /// The role-configuration call failed; the registry entry committed at
    /// the end of `Issuing` remains.
    RoleConfigurationFailed(CallError),
    /// The ownership-transfer call failed; the registry entry remains.
    OwnershipTransferFailed(CallError),
}

} // verus!
