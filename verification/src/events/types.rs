//! All domain events in the system.
use vstd::prelude::*;
use uuid::Uuid;

use crate::identity::UtcTimestamp;

verus! {

/// All domain events in the system.
#[derive(Debug, Clone, PartialEq)]
pub enum Event {
    CreatorRegistered {
        id: Uuid,
        username: String,
        wallet_address: String,
        timestamp: UtcTimestamp,
    },
    TipReceived {
        id: Uuid,
        creator_id: Uuid,
        amount: String,
        transaction_hash: String,
        timestamp: UtcTimestamp,
    },
}

impl Event {
    /// The label of the event's kind.
    pub open spec fn type_label(self) -> Seq<char> {
        match self {
            Event::CreatorRegistered { .. } => "creator_registered"@,
            Event::TipReceived { .. } => "tip_received"@,
        }
    }

    /// The aggregate that the event belongs to: the creator it concerns.
    pub open spec fn aggregate(self) -> Uuid {
        match self {
            Event::CreatorRegistered { id, .. } => id,
            Event::TipReceived { creator_id, .. } => creator_id,
        }
    }

    /// When the event happened.
    pub open spec fn happened_at(self) -> UtcTimestamp {
        match self {
            Event::CreatorRegistered { timestamp, .. } => timestamp,
            Event::TipReceived { timestamp, .. } => timestamp,
        }
    }

    /// The label of the event's kind, as stored and serialised.
    pub fn event_type(&self) -> (label: &'static str)
        ensures
            label@ == self.type_label(),
    {
        match self {
            Event::CreatorRegistered { .. } => "creator_registered",
            Event::TipReceived { .. } => "tip_received",
        }
    }

    /// The identifier of the creator that the event concerns.
    pub fn aggregate_id(&self) -> (id: Uuid)
        ensures
            id == self.aggregate(),
    {
        match self {
            Event::CreatorRegistered { id, .. } => *id,
            Event::TipReceived { creator_id, .. } => *creator_id,
        }
    }

    /// When the event happened.
    pub fn timestamp(&self) -> (t: UtcTimestamp)
        ensures
            t == self.happened_at(),
    {
        match self {
            Event::CreatorRegistered { timestamp, .. } => *timestamp,
            Event::TipReceived { timestamp, .. } => *timestamp,
        }
    }
}

} // verus!
