//! The collection creator: the request surface and the staged workflow
//! behind it.
//!
//! [`CollectionCreator`] is the service's contract: `create_collection`
//! makes the two synchronous checks and, when both pass, hands the host the
//! issue call to perform; each `..._callback` method is the continuation
//! the host invokes with the outcome of one external call, and decides what
//! to record and which call, if any, comes next.  Once a request is past
//! its synchronous checks, any stage failure is fatal for that request: the
//! error says which stage failed, and no retry exists.
//! [`CollectionService`] implements the contract with the creator set and
//! the identifier registry as its durable state.

use vstd::prelude::*;
use crate::auth::{identity_set, CreatorSet};
use crate::bytes::clone_bytes;
use crate::registry::{commit_ok, committed, IdentifierRegistry};
use crate::workflow::{
    all_properties_enabled, collection_role_list, collection_roles, full_properties, stage_after,
    AsyncCallResult, IssuerCall, ProvisionError, ProvisioningRequest, Stage,
};

verus! {

/// The provisioning service's contract.
pub trait CollectionCreator: Sized {
    /// The service's internal invariant: the registry resolves each
    /// identifier to at most one handle.
    spec fn wf(&self) -> bool;

    /// The identities allowed to initiate provisioning.
    spec fn creator_set(&self) -> Set<Seq<u8>>;

    /// The identifier-to-handle mapping resolved so far.
    spec fn collections_map(&self) -> Map<Seq<u8>, Seq<u8>>;

    /// Sets the service up with its creator identities; the set never
    /// changes afterwards, and no collection is registered yet.
    fn init(creators: Vec<Vec<u8>>) -> (r: Self)
        ensures
            r.wf(),
            r.creator_set() == identity_set(creators@),
            r.collections_map() == Map::<Seq<u8>, Seq<u8>>::empty(),
    ;

    /// Read-only query: the handle an identifier resolved to, if any.
    fn collections(&self, identifier: &Vec<u8>) -> (r: Option<Vec<u8>>)
        requires
            self.wf(),
        ensures
            match r {
                Some(h) => self.collections_map().contains_key(identifier@) && h@
                    == self.collections_map()[identifier@],
                None => !self.collections_map().contains_key(identifier@),
            },
    ;

    /// Read-only query: the creator identities.
    fn creators(&self) -> (r: &Vec<Vec<u8>>)
        ensures
            identity_set(r@) == self.creator_set(),
    ;

    /// Admits or rejects a creation request.  Unauthorized callers and
    /// already-claimed identifiers are rejected before any external call is
    /// made or any payment is consumed (the receiver is shared, so nothing
    /// can change); otherwise the request enters `Issuing` and the host is
    /// handed the issue call, with every property flag enabled, to perform
    /// against the issuer.
    fn create_collection(
        &self,
        caller: &Vec<u8>,
        identifier: Vec<u8>,
        name: Vec<u8>,
        ticker: Vec<u8>,
        owner: Vec<u8>,
        payment: u128,
    ) -> (r: Result<(ProvisioningRequest, IssuerCall), ProvisionError>)
        requires
            self.wf(),
        ensures
            !self.creator_set().contains(caller@) ==> (r matches Err(e) && e is NotAuthorized),
            self.creator_set().contains(caller@) && self.collections_map().contains_key(
                identifier@,
            ) ==> (r matches Err(e) && e is AlreadyExists),
            self.creator_set().contains(caller@) && !self.collections_map().contains_key(
                identifier@,
            ) ==> (r matches Ok(started) && started.0.identifier@ == identifier@
                && started.0.name@ == name@ && started.0.ticker@ == ticker@ && started.0.owner@
                == owner@ && started.0.payment == payment && started.0.stage == stage_after(
                Stage::Requested,
                true,
            ) && started.0.handle is None && started.0.wf() && (started.1 matches
            IssuerCall::Issue { payment: pay, name: n, ticker: t, properties: props } && pay
                == payment && n@ == name@ && t@ == ticker@ && all_properties_enabled(props))),
    ;

    /// Continuation for the issue call.  On success the resolved handle is
    /// committed to the registry at once — before roles or ownership are in
    /// place — and the host is handed the role-configuration call; a commit
    /// conflict (the identifier resolved to a different handle meanwhile) is
    /// refused without overwriting.  On failure nothing is recorded and the
    /// request is over.
    fn esdt_set_special_roles(
        &mut self,
        request: ProvisioningRequest,
        result: AsyncCallResult<Vec<u8>>,
    ) -> (r: Result<(ProvisioningRequest, IssuerCall), ProvisionError>)
        requires
            old(self).wf(),
            request.wf(),
            request.stage is Issuing,
        ensures
            final(self).wf(),
            final(self).creator_set() == old(self).creator_set(),
            result matches AsyncCallResult::Failure(e) ==> (r matches Err(pe) && pe
                == ProvisionError::IssueFailed(e) && final(self).collections_map() == old(
                self,
            ).collections_map()),
            result matches AsyncCallResult::Success(handle) ==> (final(self).collections_map()
                == committed(old(self).collections_map(), request.identifier@, handle@) && (
            commit_ok(old(self).collections_map(), request.identifier@, handle@) ==> (r matches
            Ok(next) && next.0.identifier@ == request.identifier@ && next.0.name@
                == request.name@ && next.0.ticker@ == request.ticker@ && next.0.owner@
                == request.owner@ && next.0.payment == request.payment && next.0.stage
                == stage_after(request.stage, true) && (next.0.handle matches Some(h) && h@
                == handle@) && next.0.wf() && (next.1 matches IssuerCall::SetRoles {
                owner,
                handle: granted,
                roles,
            } && owner@ == request.owner@ && granted@ == handle@ && roles@
                == collection_roles()))) && (!commit_ok(
                old(self).collections_map(),
                request.identifier@,
                handle@,
            ) ==> (r matches Err(pe) && pe is AlreadyExists))),
    ;

    /// Continuation for the role-configuration call.  On success the host
    /// is handed the ownership-transfer call; on failure the request is
    /// over, while the registry entry committed at the end of `Issuing`
    /// remains untouched (the receiver is shared, so nothing can change) —
    /// the documented partially-provisioned state.
    fn esdt_transfer_callback(
        &self,
        request: ProvisioningRequest,
        result: AsyncCallResult<()>,
    ) -> (r: Result<(ProvisioningRequest, IssuerCall), ProvisionError>)
        requires
            request.wf(),
            request.stage is RolesPending,
        ensures
            result matches AsyncCallResult::Failure(e) ==> (r matches Err(pe) && pe
                == ProvisionError::RoleConfigurationFailed(e)),
            request.handle matches Some(granted) ==> (result is Success ==> (r matches Ok(next)
                && next.0.identifier@ == request.identifier@ && next.0.name@ == request.name@
                && next.0.ticker@ == request.ticker@ && next.0.owner@ == request.owner@
                && next.0.payment == request.payment && next.0.stage == stage_after(
                request.stage,
                true,
            ) && next.0.handle == request.handle && next.0.wf() && (next.1 matches
            IssuerCall::TransferOwnership { handle: transferred, owner } && transferred@
                == granted@ && owner@ == request.owner@))),
    ;

    /// Continuation for the ownership-transfer call.  On success the
    /// request is complete; on failure it is over, again with the registry
    /// entry untouched.  Either way no further call is made.
    fn after_transfer_callback(
        &self,
        request: ProvisioningRequest,
        result: AsyncCallResult<()>,
    ) -> (r: Result<ProvisioningRequest, ProvisionError>)
        requires
            request.wf(),
            request.stage is OwnershipPending,
        ensures
            result matches AsyncCallResult::Failure(e) ==> (r matches Err(pe) && pe
                == ProvisionError::OwnershipTransferFailed(e)),
            result is Success ==> (r matches Ok(done) && done.identifier@ == request.identifier@
                && done.name@ == request.name@ && done.ticker@ == request.ticker@ && done.owner@
                == request.owner@ && done.payment == request.payment && done.stage == stage_after(
                request.stage,
                true,
            ) && done.handle == request.handle && done.wf()),
    ;
}

/// The provisioning service: the creator set fixed at initialization, and
/// the durable registry of resolved collections.
pub struct CollectionService {
    creators: CreatorSet,
    registry: IdentifierRegistry,
}

impl CollectionCreator for CollectionService {
    closed spec fn wf(&self) -> bool {
        self.registry.wf()
    }

    closed spec fn creator_set(&self) -> Set<Seq<u8>> {
        self.creators@
    }

    closed spec fn collections_map(&self) -> Map<Seq<u8>, Seq<u8>> {
        self.registry@
    }

    fn init(creators: Vec<Vec<u8>>) -> (r: Self) {
        CollectionService {
            creators: CreatorSet::from_members(creators),
            registry: IdentifierRegistry::new(),
        }
    }

    fn collections(&self, identifier: &Vec<u8>) -> (r: Option<Vec<u8>>) {
        self.registry.lookup(identifier)
    }

    fn creators(&self) -> (r: &Vec<Vec<u8>>) {
        self.creators.members()
    }

    fn create_collection(
        &self,
        caller: &Vec<u8>,
        identifier: Vec<u8>,
        name: Vec<u8>,
        ticker: Vec<u8>,
        owner: Vec<u8>,
        payment: u128,
    ) -> (r: Result<(ProvisioningRequest, IssuerCall), ProvisionError>) {
        if !self.creators.contains(caller) {
            return Err(ProvisionError::NotAuthorized);
        }
        if !self.registry.reserve_check(&identifier) {
            return Err(ProvisionError::AlreadyExists);
        }
        let call = IssuerCall::Issue {
            payment,
            name: clone_bytes(&name),
            ticker: clone_bytes(&ticker),
            properties: full_properties(),
        };
        let request = ProvisioningRequest {
            identifier,
            name,
            ticker,
            owner,
            payment,
            stage: Stage::Issuing,
            handle: None,
        };
        Ok((request, call))
    }

    fn esdt_set_special_roles(
        &mut self,
        request: ProvisioningRequest,
        result: AsyncCallResult<Vec<u8>>,
    ) -> (r: Result<(ProvisioningRequest, IssuerCall), ProvisionError>) {
        match result {
            AsyncCallResult::Success(handle) => {
                let accepted = self.registry.commit(
                    clone_bytes(&request.identifier),
                    clone_bytes(&handle),
                );
                if !accepted {
                    return Err(ProvisionError::AlreadyExists);
                }
                let call = IssuerCall::SetRoles {
                    owner: clone_bytes(&request.owner),
                    handle: clone_bytes(&handle),
                    roles: collection_role_list(),
                };
                let next = ProvisioningRequest {
                    identifier: request.identifier,
                    name: request.name,
                    ticker: request.ticker,
                    owner: request.owner,
                    payment: request.payment,
                    stage: Stage::RolesPending,
                    handle: Some(handle),
                };
                Ok((next, call))
            },
            AsyncCallResult::Failure(e) => Err(ProvisionError::IssueFailed(e)),
        }
    }

    fn esdt_transfer_callback(
        &self,
        request: ProvisioningRequest,
        result: AsyncCallResult<()>,
    ) -> (r: Result<(ProvisioningRequest, IssuerCall), ProvisionError>) {
        match result {
            AsyncCallResult::Success(_) => {
                let call = match &request.handle {
                    Some(granted) => IssuerCall::TransferOwnership {
                        handle: clone_bytes(granted),
                        owner: clone_bytes(&request.owner),
                    },
                    None => vstd::pervasive::unreached(),
                };
                let next = ProvisioningRequest {
                    identifier: request.identifier,
                    name: request.name,
                    ticker: request.ticker,
                    owner: request.owner,
                    payment: request.payment,
                    stage: Stage::OwnershipPending,
                    handle: request.handle,
                };
                Ok((next, call))
            },
            AsyncCallResult::Failure(e) => Err(ProvisionError::RoleConfigurationFailed(e)),
        }
    }

    fn after_transfer_callback(
        &self,
        request: ProvisioningRequest,
        result: AsyncCallResult<()>,
    ) -> (r: Result<ProvisioningRequest, ProvisionError>) {
        match result {
            AsyncCallResult::Success(_) => Ok(
                ProvisioningRequest {
                    identifier: request.identifier,
                    name: request.name,
                    ticker: request.ticker,
                    owner: request.owner,
                    payment: request.payment,
                    stage: Stage::Completed,
                    handle: request.handle,
                },
            ),
            AsyncCallResult::Failure(e) => Err(ProvisionError::OwnershipTransferFailed(e)),
        }
    }
}

} // verus!
