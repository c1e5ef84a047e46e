//! The contract as its callers see it: every needed authorization is granted.
use mux_recovery::event;
use mux_recovery::types::MAX_GUARDIANS;
use mux_recovery::{
    Address, Call, Event, Guardians, Instance, Invocation, MuxRecovery, Outcome, RecoveryError,
    RecoveryStatus, RECOVERY_EXPIRY, RECOVERY_TIMELOCK,
};
use soroban_sdk::testutils::{Address as _, EnvTestConfig};
use soroban_sdk::Env;

/// A deployed contract and its host.
struct Client {
    env: Env,
    host: Invocation,
}

fn new_env() -> Env {
    Env::new_with_config(EnvTestConfig { capture_snapshot_at_drop: false })
}

fn deploy() -> Client {
    Client { env: new_env(), host: Invocation::new(0, Instance::blank()) }
}

fn half(bytes: &[u8]) -> u128 {
    let mut half = [0u8; 16];
    half.copy_from_slice(bytes);
    u128::from_be_bytes(half)
}

impl Client {
    /// A fresh address of the network.
    fn generate(&self) -> Address {
        let address = soroban_sdk::Address::generate(&self.env);
        match address.to_payload() {
            Some(soroban_sdk::address_payload::AddressPayload::ContractIdHash(hash)) => {
                let bytes = hash.to_array();
                Address {
                    kind: mux_recovery::address::CONTRACT,
                    high: half(&bytes[..16]),
                    low: half(&bytes[16..]),
                }
            }
            other => panic!("unexpected payload {:?}", other),
        }
    }

    fn list(&self, addresses: &[Address]) -> Guardians {
        let mut guardians = Guardians::new(&self.env);
        for address in addresses {
            guardians.push_back(*address);
        }
        guardians
    }

    fn advance(&mut self, ledgers: u32) {
        self.host.sequence += ledgers;
    }

    /// Grants what authorization the call needs, and makes it.
    fn call(&mut self, call: Call) -> Result<(), RecoveryError> {
        if let Some(address) = MuxRecovery::authority(&self.host, &call) {
            self.host.approve(address);
        }
        match MuxRecovery::invoke(&mut self.host, call) {
            Outcome::Completed(result) => result,
            Outcome::Unapproved(address) => panic!("not approved by {:?}", address),
        }
    }

    fn initialize(&mut self, owner: Address, guardians: &[Address]) -> Result<(), RecoveryError> {
        let guardians = self.list(guardians);
        self.call(Call::Initialize { owner, guardians })
    }

    fn initiate_recovery(&mut self, guardian: Address, new_owner: Address) -> Result<(), RecoveryError> {
        self.call(Call::InitiateRecovery { guardian, new_owner })
    }

    fn cancel_recovery(&mut self) -> Result<(), RecoveryError> {
        self.call(Call::CancelRecovery)
    }

    fn execute_recovery(&mut self, guardian: Address) -> Result<(), RecoveryError> {
        self.call(Call::ExecuteRecovery { guardian })
    }

    fn add_guardian(&mut self, owner: Address, guardian: Address) -> Result<(), RecoveryError> {
        self.call(Call::AddGuardian { owner, guardian })
    }

    fn remove_guardian(&mut self, owner: Address, guardian: Address) -> Result<(), RecoveryError> {
        self.call(Call::RemoveGuardian { owner, guardian })
    }

    fn set_registry(&mut self, owner: Address, registry_id: Address) -> Result<(), RecoveryError> {
        self.call(Call::SetRegistry { owner, registry_id })
    }

    fn owner(&self) -> Address {
        MuxRecovery::owner(&self.host).unwrap()
    }

    fn guardians(&self) -> Guardians {
        match MuxRecovery::guardians(&self.host) {
            Ok(guardians) => guardians,
            Err(error) => panic!("{:?}", error),
        }
    }

    fn recovery_status(&self) -> RecoveryStatus {
        MuxRecovery::recovery_status(&self.host)
    }

    fn registry_id(&self) -> Option<Address> {
        MuxRecovery::registry_id(&self.host)
    }
}

fn setup() -> (Client, Address, Address) {
    let mut client = deploy();
    let owner = client.generate();
    let guardian = client.generate();
    client.initialize(owner, &[guardian]).unwrap();
    (client, owner, guardian)
}

// initialize

#[test]
fn test_initialize_sets_owner_and_guardians() {
    let (client, owner, guardian) = setup();
    assert_eq!(client.owner(), owner);
    assert!(client.guardians().contains(&guardian));
}

#[test]
fn test_initialize_emits_init_event() {
    let mut client = deploy();
    let owner = client.generate();
    client.initialize(owner, &[]).unwrap();
    assert_eq!(client.host.events.len(), 1);
    assert_eq!(client.host.events[0].action(), "init");
}

#[test]
fn test_double_initialize_rejected() {
    let (mut client, owner, _) = setup();
    let err = client.initialize(owner, &[]).unwrap_err();
    assert_eq!(err, RecoveryError::AlreadyInitialized);
}

// recovery_status

#[test]
fn test_recovery_status_none_by_default() {
    let (client, _, _) = setup();
    assert_eq!(client.recovery_status(), RecoveryStatus::Inactive);
}

// initiate_recovery

#[test]
fn test_initiate_recovery_sets_pending() {
    let (mut client, _, guardian) = setup();
    let new_owner = client.generate();
    client.initiate_recovery(guardian, new_owner).unwrap();
    assert_eq!(client.recovery_status(), RecoveryStatus::Pending);
}

#[test]
fn test_initiate_recovery_emits_event() {
    let (mut client, _, guardian) = setup();
    let new_owner = client.generate();
    client.initiate_recovery(guardian, new_owner).unwrap();
    // init + rec_init
    assert_eq!(client.host.events.len(), 2);
    assert_eq!(client.host.events[1].action(), "rec_init");
}

#[test]
fn test_initiate_recovery_non_guardian_rejected() {
    let (mut client, _, _) = setup();
    let stranger = client.generate();
    let new_owner = client.generate();
    let err = client.initiate_recovery(stranger, new_owner).unwrap_err();
    assert_eq!(err, RecoveryError::Unauthorized);
}

#[test]
fn test_initiate_recovery_duplicate_pending_rejected() {
    let (mut client, _, guardian) = setup();
    let new_owner = client.generate();
    client.initiate_recovery(guardian, new_owner).unwrap();
    let err = client.initiate_recovery(guardian, new_owner).unwrap_err();
    assert_eq!(err, RecoveryError::RecoveryAlreadyPending);
}

#[test]
fn test_initiate_recovery_on_uninitialised_contract_rejected() {
    let mut client = deploy();
    let guardian = client.generate();
    let new_owner = client.generate();
    let err = client.initiate_recovery(guardian, new_owner).unwrap_err();
    assert_eq!(err, RecoveryError::NotInitialized);
}

// cancel_recovery

#[test]
fn test_cancel_recovery_sets_cancelled() {
    let (mut client, _, guardian) = setup();
    let new_owner = client.generate();
    client.initiate_recovery(guardian, new_owner).unwrap();
    client.cancel_recovery().unwrap();
    assert_eq!(client.recovery_status(), RecoveryStatus::Cancelled);
}

#[test]
fn test_cancel_recovery_emits_event() {
    let (mut client, _, guardian) = setup();
    let new_owner = client.generate();
    client.initiate_recovery(guardian, new_owner).unwrap();
    client.cancel_recovery().unwrap();
    // init + rec_init + rec_cncl
    assert_eq!(client.host.events.len(), 3);
    assert_eq!(client.host.events[2].action(), "rec_cncl");
}

#[test]
fn test_cancel_recovery_without_pending_request_rejected() {
    let (mut client, _, _) = setup();
    let err = client.cancel_recovery().unwrap_err();
    assert_eq!(err, RecoveryError::NoActiveRecovery);
}

#[test]
fn test_cancel_already_executed_recovery_rejected() {
    let (mut client, _, guardian) = setup();
    let new_owner = client.generate();
    client.initiate_recovery(guardian, new_owner).unwrap();
    client.advance(RECOVERY_TIMELOCK + 1);
    client.execute_recovery(guardian).unwrap();
    let err = client.cancel_recovery().unwrap_err();
    assert_eq!(err, RecoveryError::NoActiveRecovery);
}

// execute_recovery

#[test]
fn test_execute_recovery_after_timelock_transfers_ownership() {
    let (mut client, _, guardian) = setup();
    let new_owner = client.generate();
    client.initiate_recovery(guardian, new_owner).unwrap();
    client.advance(RECOVERY_TIMELOCK + 1);
    client.execute_recovery(guardian).unwrap();
    assert_eq!(client.recovery_status(), RecoveryStatus::Executed);
    assert_eq!(client.owner(), new_owner);
}

#[test]
fn test_execute_recovery_emits_event() {
    let (mut client, _, guardian) = setup();
    let new_owner = client.generate();
    client.initiate_recovery(guardian, new_owner).unwrap();
    client.advance(RECOVERY_TIMELOCK + 1);
    client.execute_recovery(guardian).unwrap();
    // init + rec_init + rec_exec
    assert_eq!(client.host.events.len(), 3);
    assert_eq!(client.host.events[2].action(), "rec_exec");
}

#[test]
fn test_execute_recovery_before_timelock_rejected() {
    let (mut client, _, guardian) = setup();
    let new_owner = client.generate();
    client.initiate_recovery(guardian, new_owner).unwrap();
    // The ledger does not advance.
    let err = client.execute_recovery(guardian).unwrap_err();
    assert_eq!(err, RecoveryError::TimelockNotExpired);
}

#[test]
fn test_execute_recovery_non_guardian_rejected() {
    let (mut client, _, guardian) = setup();
    let new_owner = client.generate();
    client.initiate_recovery(guardian, new_owner).unwrap();
    client.advance(RECOVERY_TIMELOCK + 1);
    let stranger = client.generate();
    let err = client.execute_recovery(stranger).unwrap_err();
    assert_eq!(err, RecoveryError::Unauthorized);
}

#[test]
fn test_execute_recovery_without_pending_request_rejected() {
    let (mut client, _, guardian) = setup();
    let err = client.execute_recovery(guardian).unwrap_err();
    assert_eq!(err, RecoveryError::NoActiveRecovery);
}

#[test]
fn test_execute_cancelled_recovery_rejected() {
    let (mut client, _, guardian) = setup();
    let new_owner = client.generate();
    client.initiate_recovery(guardian, new_owner).unwrap();
    client.cancel_recovery().unwrap();
    client.advance(RECOVERY_TIMELOCK + 1);
    let err = client.execute_recovery(guardian).unwrap_err();
    assert_eq!(err, RecoveryError::NoActiveRecovery);
}

// add_guardian, remove_guardian

#[test]
fn test_add_guardian_succeeds() {
    let (client, _, _guardian) = setup();
    let new_guardian = client.generate();
    let guardians = client.guardians();
    assert!(!guardians.contains(&new_guardian));
    assert_eq!(guardians.len(), 1);
}

#[test]
fn test_add_guardian_emits_event() {
    let (mut client, owner, _) = setup();
    let new_guardian = client.generate();
    let _ = client.add_guardian(owner, new_guardian);
    // init + grd_add
    assert_eq!(client.host.events.len(), 2);
    assert_eq!(client.host.events[1].action(), "grd_add");
}

#[test]
fn test_add_duplicate_guardian_rejected() {
    let (mut client, owner, guardian) = setup();
    let err = client.add_guardian(owner, guardian).unwrap_err();
    assert_eq!(err, RecoveryError::GuardianAlreadyExists);
}

#[test]
fn test_add_guardian_cap_enforced() {
    let mut client = deploy();
    let owner = client.generate();
    let g1 = client.generate();
    client.initialize(owner, &[g1]).unwrap();
    // One is there: fill up to the cap.
    for _ in 1..MAX_GUARDIANS {
        let guardian = client.generate();
        let _ = client.add_guardian(owner, guardian);
    }
    // One more must be rejected.
    let guardian = client.generate();
    let err = client.add_guardian(owner, guardian).unwrap_err();
    assert_eq!(err, RecoveryError::TooManyGuardians);
    assert_eq!(MAX_GUARDIANS, 16);
}

#[test]
fn test_remove_guardian_succeeds() {
    let (mut client, owner, guardian) = setup();
    let g2 = client.generate();
    let _ = client.add_guardian(owner, g2);
    let _ = client.remove_guardian(owner, guardian);
    assert!(!client.guardians().contains(&guardian));
    assert_eq!(client.guardians().len(), 1);
}

#[test]
fn test_remove_guardian_emits_event() {
    let (mut client, owner, guardian) = setup();
    let g2 = client.generate();
    client.add_guardian(owner, g2).unwrap();
    client.remove_guardian(owner, guardian).unwrap();
    // init + grd_add + grd_rm
    assert_eq!(client.host.events.len(), 3);
    assert_eq!(client.host.events[2].action(), "grd_rm");
}

#[test]
fn test_remove_last_guardian_rejected() {
    let (mut client, owner, guardian) = setup();
    let err = client.remove_guardian(owner, guardian).unwrap_err();
    assert_eq!(err, RecoveryError::MinGuardiansRequired);
}

#[test]
fn test_remove_nonexistent_guardian_rejected() {
    let (mut client, owner, _) = setup();
    let stranger = client.generate();
    let err = client.remove_guardian(owner, stranger).unwrap_err();
    assert_eq!(err, RecoveryError::GuardianNotFound);
}

#[test]
fn test_add_guardian_on_uninitialised_contract_rejected() {
    let mut client = deploy();
    let owner = client.generate();
    let guardian = client.generate();
    let err = client.add_guardian(owner, guardian).unwrap_err();
    assert_eq!(err, RecoveryError::NotInitialized);
}

#[test]
fn test_removed_guardian_cannot_initiate_recovery() {
    let (mut client, owner, guardian) = setup();
    let g2 = client.generate();
    client.add_guardian(owner, g2).unwrap();
    client.remove_guardian(owner, guardian).unwrap();
    let new_owner = client.generate();
    let err = client.initiate_recovery(guardian, new_owner).unwrap_err();
    assert_eq!(err, RecoveryError::Unauthorized);
}

#[test]
fn test_newly_added_guardian_can_initiate_recovery() {
    let (mut client, owner, _) = setup();
    let g2 = client.generate();
    client.add_guardian(owner, g2).unwrap();
    let new_owner = client.generate();
    client.initiate_recovery(g2, new_owner).unwrap();
    assert_eq!(client.recovery_status(), RecoveryStatus::Pending);
}

// Topics are short symbols.

#[test]
fn test_symbol_short_lengths_within_limit() {
    let env = new_env();
    for name in ["mux_recv", "init", "rec_init", "rec_cncl", "rec_exec"] {
        assert!(name.len() <= 8);
        assert_eq!(soroban_sdk::Symbol::short(name), soroban_sdk::Symbol::new(&env, name));
    }
    assert_eq!(event::tag(), "mux_recv");
}

// Expiry and the payload of the event.

#[test]
fn test_execute_recovery_after_expiry_rejected() {
    let (mut client, _, guardian) = setup();
    let new_owner = client.generate();
    client.initiate_recovery(guardian, new_owner).unwrap();
    client.advance(RECOVERY_EXPIRY + 1);
    let err = client.execute_recovery(guardian).unwrap_err();
    assert_eq!(err, RecoveryError::RecoveryExpired);
}

#[test]
fn test_expired_pending_recovery_can_be_reinitiated() {
    let (mut client, _, guardian) = setup();
    let first_owner = client.generate();
    client.initiate_recovery(guardian, first_owner).unwrap();
    client.advance(RECOVERY_EXPIRY + 1);
    // The stale request must not block a fresh one.
    let second_owner = client.generate();
    client.initiate_recovery(guardian, second_owner).unwrap();
    assert_eq!(client.recovery_status(), RecoveryStatus::Pending);
}

#[test]
fn test_initiate_recovery_event_carries_timelock_window() {
    let (mut client, _, guardian) = setup();
    let new_owner = client.generate();
    let at = client.host.sequence;
    client.initiate_recovery(guardian, new_owner).unwrap();
    match client.host.events[1] {
        Event::RecoveryInitiated {
            guardian: ev_guardian,
            new_owner: ev_new_owner,
            initiated_at: ev_initiated,
            executable_at: ev_executable,
            expires_at: ev_expires,
        } => {
            assert_eq!(ev_guardian, guardian);
            assert_eq!(ev_new_owner, new_owner);
            assert_eq!(ev_initiated, at);
            assert_eq!(ev_executable, at + RECOVERY_TIMELOCK);
            assert_eq!(ev_expires, at + RECOVERY_EXPIRY);
        }
        other => panic!("unexpected event {:?}", other),
    }
}

#[test]
fn test_recovery_does_not_transfer_ownership_until_executed() {
    let (mut client, owner, guardian) = setup();
    let new_owner = client.generate();
    client.initiate_recovery(guardian, new_owner).unwrap();
    client.advance(RECOVERY_TIMELOCK + 1);
    assert_eq!(client.owner(), owner);
    client.execute_recovery(guardian).unwrap();
    assert_eq!(client.owner(), new_owner);
}

#[test]
fn test_recovery_cannot_be_executed_twice() {
    let (mut client, _, guardian) = setup();
    let new_owner = client.generate();
    client.initiate_recovery(guardian, new_owner).unwrap();
    client.advance(RECOVERY_TIMELOCK + 1);
    client.execute_recovery(guardian).unwrap();
    let err = client.execute_recovery(guardian).unwrap_err();
    assert_eq!(err, RecoveryError::NoActiveRecovery);
}

#[test]
fn test_cancelled_recovery_can_be_reinitiated() {
    let (mut client, _, guardian) = setup();
    let first_owner = client.generate();
    client.initiate_recovery(guardian, first_owner).unwrap();
    client.cancel_recovery().unwrap();
    let second_owner = client.generate();
    client.initiate_recovery(guardian, second_owner).unwrap();
    assert_eq!(client.recovery_status(), RecoveryStatus::Pending);
    client.advance(RECOVERY_TIMELOCK + 1);
    client.execute_recovery(guardian).unwrap();
    assert_eq!(client.owner(), second_owner);
}

// The registry link.

#[test]
fn test_set_registry_stores_address() {
    let (mut client, owner, _) = setup();
    let registry = client.generate();
    client.set_registry(owner, registry).unwrap();
    assert_eq!(client.registry_id(), Some(registry));
}

#[test]
fn test_registry_id_none_before_set() {
    let (client, _, _) = setup();
    assert!(client.registry_id().is_none());
}

#[test]
fn test_set_registry_emits_event() {
    let (mut client, owner, _) = setup();
    let registry = client.generate();
    client.set_registry(owner, registry).unwrap();
    // init + reg_link
    assert_eq!(client.host.events.len(), 2);
    assert_eq!(client.host.events[1].action(), "reg_link");
}

#[test]
fn test_set_registry_requires_owner_auth() {
    let (mut client, owner, _) = setup();
    let registry = client.generate();
    client.set_registry(owner, registry).unwrap();
    assert_eq!(client.registry_id(), Some(registry));
}

#[test]
fn test_symbol_short_reg_link_within_limit() {
    let env = new_env();
    let name = "reg_link";
    assert!(name.len() <= 8);
    assert_eq!(soroban_sdk::Symbol::short(name), soroban_sdk::Symbol::new(&env, name));
}
