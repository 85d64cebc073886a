use collection_creator::contract::{CollectionCreator, CollectionService};
use collection_creator::registry::IdentifierRegistry;
use collection_creator::workflow::{
    AsyncCallResult, CallError, CollectionRole, IssuerCall, ProvisionError, ProvisioningRequest,
    Stage,
};

fn b(s: &str) -> Vec<u8> {
    s.as_bytes().to_vec()
}

fn fail(code: u32, message: &str) -> CallError {
    CallError {
        code,
        message: b(message),
    }
}

/// Runs a request up to the point where the issue call has succeeded with
/// `handle`, returning the service and the request now awaiting the
/// role-configuration result.
fn provision_until_roles_pending(handle: &str) -> (CollectionService, ProvisioningRequest) {
    let mut cc = CollectionService::init(vec![b("creatorA")]);
    let (request, _call) = cc
        .create_collection(&b("creatorA"), b("cats"), b("Cats"), b("CAT"), b("ownerX"), 1)
        .unwrap();
    let (request, _call) = cc
        .esdt_set_special_roles(request, AsyncCallResult::Success(b(handle)))
        .unwrap();
    (cc, request)
}

#[test]
fn unauthorized_caller_is_rejected() {
    let cc = CollectionService::init(vec![b("creatorA")]);
    let r = cc.create_collection(&b("intruder"), b("cats"), b("Cats"), b("CAT"), b("ownerX"), 1);
    assert!(matches!(r, Err(ProvisionError::NotAuthorized)));
    assert_eq!(cc.collections(&b("cats")), None);
    assert_eq!(cc.creators(), &vec![b("creatorA")]);
}

#[test]
fn empty_creator_set_rejects_everyone() {
    let cc = CollectionService::init(vec![]);
    let r = cc.create_collection(&b("anyone"), b("id"), b("Name"), b("TCK"), b("owner"), 0);
    assert!(matches!(r, Err(ProvisionError::NotAuthorized)));
}

#[test]
fn authorization_is_checked_before_the_duplicate() {
    let (cc, _request) = provision_until_roles_pending("CATS-abcd");
    let r = cc.create_collection(&b("intruder"), b("cats"), b("Cats"), b("CAT"), b("ownerX"), 1);
    assert!(matches!(r, Err(ProvisionError::NotAuthorized)));
}

#[test]
fn duplicate_identifier_is_rejected() {
    let (cc, _request) = provision_until_roles_pending("CATS-abcd");
    // same identifier, every other argument different
    let r = cc.create_collection(&b("creatorA"), b("cats"), b("Dogs"), b("DOG"), b("ownerY"), 99);
    assert!(matches!(r, Err(ProvisionError::AlreadyExists)));
    assert_eq!(cc.collections(&b("cats")), Some(b("CATS-abcd")));
}

#[test]
fn issue_call_carries_the_request() {
    let cc = CollectionService::init(vec![b("creatorA")]);
    let (request, call) = cc
        .create_collection(&b("creatorA"), b("cats"), b("Cats"), b("CAT"), b("ownerX"), 1)
        .unwrap();
    assert_eq!(request.stage, Stage::Issuing);
    assert_eq!(request.identifier, b("cats"));
    assert_eq!(request.owner, b("ownerX"));
    assert_eq!(request.payment, 1);
    assert!(request.handle.is_none());
    match call {
        IssuerCall::Issue {
            payment,
            name,
            ticker,
            properties,
        } => {
            assert_eq!(payment, 1);
            assert_eq!(name, b("Cats"));
            assert_eq!(ticker, b("CAT"));
            assert!(properties.can_change_owner);
            assert!(properties.can_freeze);
            assert!(properties.can_pause);
            assert!(properties.can_transfer_create_role);
            assert!(properties.can_upgrade);
            assert!(properties.can_wipe);
            assert!(properties.can_add_special_roles);
        }
        _ => panic!("expected an issue call"),
    }
    // nothing is registered while the issue call is in flight
    assert_eq!(cc.collections(&b("cats")), None);
}

#[test]
fn full_provisioning_resolves_identifier() {
    let mut cc = CollectionService::init(vec![b("creatorA")]);
    let (request, _call) = cc
        .create_collection(&b("creatorA"), b("cats"), b("Cats"), b("CAT"), b("ownerX"), 1)
        .unwrap();
    let (request, call) = cc
        .esdt_set_special_roles(request, AsyncCallResult::Success(b("CATS-abcd")))
        .unwrap();
    assert_eq!(request.stage, Stage::RolesPending);
    assert_eq!(request.handle, Some(b("CATS-abcd")));
    match call {
        IssuerCall::SetRoles {
            owner,
            handle,
            roles,
        } => {
            assert_eq!(owner, b("ownerX"));
            assert_eq!(handle, b("CATS-abcd"));
            assert_eq!(roles, vec![CollectionRole::NftBurn, CollectionRole::NftCreate]);
        }
        _ => panic!("expected a role-configuration call"),
    }
    // committed as soon as the handle is known
    assert_eq!(cc.collections(&b("cats")), Some(b("CATS-abcd")));
    let (request, call) = cc
        .esdt_transfer_callback(request, AsyncCallResult::Success(()))
        .unwrap();
    assert_eq!(request.stage, Stage::OwnershipPending);
    match call {
        IssuerCall::TransferOwnership { handle, owner } => {
            assert_eq!(handle, b("CATS-abcd"));
            assert_eq!(owner, b("ownerX"));
        }
        _ => panic!("expected an ownership-transfer call"),
    }
    let done = cc
        .after_transfer_callback(request, AsyncCallResult::Success(()))
        .unwrap();
    assert_eq!(done.stage, Stage::Completed);
    assert_eq!(done.handle, Some(b("CATS-abcd")));
    // the resolution is stable
    assert_eq!(cc.collections(&b("cats")), Some(b("CATS-abcd")));
}

#[test]
fn issue_failure_records_nothing() {
    let mut cc = CollectionService::init(vec![b("creatorA")]);
    let (request, _call) = cc
        .create_collection(&b("creatorA"), b("cats"), b("Cats"), b("CAT"), b("ownerX"), 1)
        .unwrap();
    let r = cc.esdt_set_special_roles(request, AsyncCallResult::Failure(fail(4, "out of funds")));
    match r {
        Err(ProvisionError::IssueFailed(e)) => {
            assert_eq!(e.code, 4);
            assert_eq!(e.message, b("out of funds"));
        }
        _ => panic!("expected the issue failure to be fatal"),
    }
    assert_eq!(cc.collections(&b("cats")), None);
    // the identifier stays free for a later request
    let r = cc.create_collection(&b("creatorA"), b("cats"), b("Cats"), b("CAT"), b("ownerX"), 1);
    assert!(r.is_ok());
}

#[test]
fn roles_failure_keeps_registry_entry() {
    let (cc, request) = provision_until_roles_pending("CATS-abcd");
    let r = cc.esdt_transfer_callback(request, AsyncCallResult::Failure(fail(5, "roles refused")));
    match r {
        Err(ProvisionError::RoleConfigurationFailed(e)) => assert_eq!(e.code, 5),
        _ => panic!("expected the roles failure to be fatal"),
    }
    // partially provisioned, but the resolution stands
    assert_eq!(cc.collections(&b("cats")), Some(b("CATS-abcd")));
}

#[test]
fn transfer_failure_keeps_registry_entry() {
    let (cc, request) = provision_until_roles_pending("CATS-abcd");
    let (request, _call) = cc
        .esdt_transfer_callback(request, AsyncCallResult::Success(()))
        .unwrap();
    let r = cc.after_transfer_callback(request, AsyncCallResult::Failure(fail(6, "no transfer")));
    match r {
        Err(ProvisionError::OwnershipTransferFailed(e)) => {
            assert_eq!(e.code, 6);
            assert_eq!(e.message, b("no transfer"));
        }
        _ => panic!("expected the transfer failure to be fatal"),
    }
    assert_eq!(cc.collections(&b("cats")), Some(b("CATS-abcd")));
}

#[test]
fn independent_identifiers_resolve_independently() {
    let mut cc = CollectionService::init(vec![b("creatorA"), b("creatorB")]);
    let (cats, _call) = cc
        .create_collection(&b("creatorA"), b("cats"), b("Cats"), b("CAT"), b("ownerX"), 1)
        .unwrap();
    let (dogs, _call) = cc
        .create_collection(&b("creatorB"), b("dogs"), b("Dogs"), b("DOG"), b("ownerY"), 2)
        .unwrap();
    let (_cats, _call) = cc
        .esdt_set_special_roles(cats, AsyncCallResult::Success(b("CATS-abcd")))
        .unwrap();
    let (_dogs, _call) = cc
        .esdt_set_special_roles(dogs, AsyncCallResult::Success(b("DOGS-1234")))
        .unwrap();
    assert_eq!(cc.collections(&b("cats")), Some(b("CATS-abcd")));
    assert_eq!(cc.collections(&b("dogs")), Some(b("DOGS-1234")));
    assert_eq!(cc.collections(&b("birds")), None);
}

#[test]
fn commit_is_idempotent() {
    let mut registry = IdentifierRegistry::new();
    assert!(registry.commit(b("cats"), b("CATS-abcd")));
    assert!(registry.commit(b("cats"), b("CATS-abcd")));
    assert_eq!(registry.lookup(&b("cats")), Some(b("CATS-abcd")));
}

#[test]
fn commit_refuses_a_conflicting_handle() {
    let mut registry = IdentifierRegistry::new();
    assert!(registry.commit(b("cats"), b("CATS-abcd")));
    assert!(!registry.commit(b("cats"), b("CATS-ffff")));
    assert_eq!(registry.lookup(&b("cats")), Some(b("CATS-abcd")));
}

#[test]
fn reserve_check_reflects_the_registry() {
    let mut registry = IdentifierRegistry::new();
    assert!(registry.reserve_check(&b("cats")));
    assert!(registry.commit(b("cats"), b("CATS-abcd")));
    assert!(!registry.reserve_check(&b("cats")));
    assert!(registry.reserve_check(&b("dogs")));
}

#[test]
fn empty_identifier_is_an_ordinary_key() {
    let mut cc = CollectionService::init(vec![b("creatorA")]);
    let (request, _call) = cc
        .create_collection(&b("creatorA"), b(""), b("Blank"), b("BLK"), b("ownerX"), 0)
        .unwrap();
    let (_request, _call) = cc
        .esdt_set_special_roles(request, AsyncCallResult::Success(b("BLANK-0000")))
        .unwrap();
    assert_eq!(cc.collections(&b("")), Some(b("BLANK-0000")));
    let r = cc.create_collection(&b("creatorA"), b(""), b("Blank"), b("BLK"), b("ownerX"), 0);
    assert!(matches!(r, Err(ProvisionError::AlreadyExists)));
}

#[test]
fn duplicate_creators_are_one_identity() {
    let cc = CollectionService::init(vec![b("creatorA"), b("creatorA")]);
    let r = cc.create_collection(&b("creatorA"), b("cats"), b("Cats"), b("CAT"), b("ownerX"), 1);
    assert!(r.is_ok());
}

#[test]
fn replayed_issue_result_is_idempotent() {
    let (mut cc, _request) = provision_until_roles_pending("CATS-abcd");
    // the host redelivers the same issue result on a reconstructed request
    let replay = ProvisioningRequest {
        identifier: b("cats"),
        name: b("Cats"),
        ticker: b("CAT"),
        owner: b("ownerX"),
        payment: 1,
        stage: Stage::Issuing,
        handle: None,
    };
    let r = cc.esdt_set_special_roles(replay, AsyncCallResult::Success(b("CATS-abcd")));
    assert!(r.is_ok());
    assert_eq!(cc.collections(&b("cats")), Some(b("CATS-abcd")));
}

#[test]
fn conflicting_resolution_is_refused() {
    let (mut cc, _request) = provision_until_roles_pending("CATS-abcd");
    // a second in-flight request for the same identifier resolves differently
    let racer = ProvisioningRequest {
        identifier: b("cats"),
        name: b("Cats"),
        ticker: b("CAT"),
        owner: b("ownerY"),
        payment: 1,
        stage: Stage::Issuing,
        handle: None,
    };
    let r = cc.esdt_set_special_roles(racer, AsyncCallResult::Success(b("CATS-ffff")));
    assert!(matches!(r, Err(ProvisionError::AlreadyExists)));
    // the first resolution was not overwritten
    assert_eq!(cc.collections(&b("cats")), Some(b("CATS-abcd")));
}
