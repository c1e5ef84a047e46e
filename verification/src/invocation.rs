//! One invocation of the contract: what the host hands in and what the contract
//! hands back.
use crate::address::Address;
use crate::event::Event;
use crate::guardians::Guardians;
use crate::types::{DataKey, RecoveryRequest, TTL_EXTEND_TO, TTL_THRESHOLD};
use vstd::prelude::*;

verus! {

/// What the contract's instance storage holds, an entry for each `DataKey`.
pub struct Instance {
    pub owner: Option<Address>,
    pub guardians: Option<Guardians>,
    pub recovery: Option<RecoveryRequest>,
    pub registry_id: Option<Address>,
}

/// The mathematical value of an `Instance`.
#[verifier::ext_equal]
pub struct InstanceView {
    pub owner: Option<Address>,
    pub guardians: Option<Seq<Address>>,
    pub recovery: Option<RecoveryRequest>,
    pub registry_id: Option<Address>,
}

impl View for Instance {
    type V = InstanceView;

    open spec fn view(&self) -> InstanceView {
        InstanceView {
            owner: self.owner,
            guardians: match self.guardians {
                Some(guardians) => Some(guardians@),
                None => None,
            },
            recovery: self.recovery,
            registry_id: self.registry_id,
        }
    }
}

impl InstanceView {
    /// The storage of a contract that was never initialized.
    pub open spec fn blank() -> InstanceView {
        InstanceView { owner: None, guardians: None, recovery: None, registry_id: None }
    }

    /// Whether there is an entry under `key`.
    pub open spec fn has(self, key: DataKey) -> bool {
        match key {
            DataKey::Owner => self.owner is Some,
            DataKey::Guardians => self.guardians is Some,
            DataKey::Recovery => self.recovery is Some,
            DataKey::RegistryId => self.registry_id is Some,
        }
    }

    /// Whether `self` and `other` hold the same under `key`.
    pub open spec fn agrees(self, other: InstanceView, key: DataKey) -> bool {
        match key {
            DataKey::Owner => self.owner == other.owner,
            DataKey::Guardians => self.guardians == other.guardians,
            DataKey::Recovery => self.recovery == other.recovery,
            DataKey::RegistryId => self.registry_id == other.registry_id,
        }
    }
}

impl Instance {
    /// The storage of a contract that was never initialized.
    pub fn blank() -> (instance: Instance)
        ensures
            instance@ == InstanceView::blank(),
    {
        Instance { owner: None, guardians: None, recovery: None, registry_id: None }
    }
}

/// A request that the host keep the instance alive: once it has fewer than
/// `threshold` ledgers to live, it is to get `extend_to`.
#[derive(Clone, Copy, Debug, PartialEq, Eq, Structural)]
pub struct TtlExtension {
    pub threshold: u32,
    pub extend_to: u32,
}

/// The extension that every accepted call asks for.
pub open spec fn ttl_extension() -> TtlExtension {
    TtlExtension { threshold: TTL_THRESHOLD, extend_to: TTL_EXTEND_TO }
}

/// One invocation of the contract.
///
/// The host hands in the ledger sequence, the addresses that authorized the
/// invocation and the instance storage. The contract leaves the new contents of
/// the storage, and notes what the host has to do on its behalf.
pub struct Invocation {
    /// The sequence number of the current ledger.
    pub sequence: u32,
    /// The addresses that authorized this invocation.
    pub approved: Vec<Address>,
    /// The instance storage.
    pub instance: Instance,
    /// The entries of the storage that were written, in the order of the writes.
    pub writes: Vec<DataKey>,
    /// The events that were published, first to last.
    pub events: Vec<Event>,
    /// The extensions of the instance's time to live that were asked for.
    pub ttl_extensions: Vec<TtlExtension>,
}

/// The mathematical value of an `Invocation`.
#[verifier::ext_equal]
pub struct InvocationView {
    pub sequence: u32,
    pub approved: Seq<Address>,
    pub instance: InstanceView,
    pub writes: Seq<DataKey>,
    pub events: Seq<Event>,
    pub ttl_extensions: Seq<TtlExtension>,
}

impl View for Invocation {
    type V = InvocationView;

    open spec fn view(&self) -> InvocationView {
        InvocationView {
            sequence: self.sequence,
            approved: self.approved@,
            instance: self.instance@,
            writes: self.writes@,
            events: self.events@,
            ttl_extensions: self.ttl_extensions@,
        }
    }
}

impl InvocationView {
    /// Whether the invocation is authorized by `authority`, where there is an
    /// address whose authorization is needed.
    pub open spec fn cleared_by(self, authority: Option<Address>) -> bool {
        authority matches Some(address) ==> self.approved.contains(address)
    }

    /// The invocation after an accepted call that leaves `instance` in the
    /// storage, having written the entries `written`, and publishes `event`.
    pub open spec fn committed(
        self,
        instance: InstanceView,
        written: Seq<DataKey>,
        event: Event,
    ) -> InvocationView {
        InvocationView {
            instance,
            writes: self.writes + written,
            events: self.events.push(event),
            ttl_extensions: self.ttl_extensions.push(ttl_extension()),
            ..self
        }
    }
}

impl Invocation {
    /// An invocation at ledger `sequence` over `instance` that nobody has
    /// authorized yet.
    pub fn new(sequence: u32, instance: Instance) -> (invocation: Invocation)
        ensures
            invocation@ == (InvocationView {
                sequence,
                approved: seq![],
                instance: instance@,
                writes: seq![],
                events: seq![],
                ttl_extensions: seq![],
            }),
    {
        Invocation {
            sequence,
            approved: Vec::new(),
            instance,
            writes: Vec::new(),
            events: Vec::new(),
            ttl_extensions: Vec::new(),
        }
    }

    /// Notes that `address` authorized the invocation.
    pub fn approve(&mut self, address: Address)
        ensures
            final(self)@ == (InvocationView {
                approved: old(self)@.approved.push(address),
                ..old(self)@
            }),
    {
        self.approved.push(address);
    }

    /// Whether `address` authorized the invocation.
    pub fn is_approved(&self, address: &Address) -> (approved: bool)
        ensures
            approved == self@.approved.contains(*address),
    {
        let mut i: usize = 0;
        while i < self.approved.len()
            invariant
                i <= self.approved@.len(),
                forall|j: int| 0 <= j < i ==> self.approved@[j] != *address,
            decreases self.approved@.len() - i,
        {
            if self.approved[i] == *address {
                return true;
            }
            i = i + 1;
        }
        false
    }
}

} // verus!
