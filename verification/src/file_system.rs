//! What the device knows of its storage card, and when a record is
//! written to it.

use vstd::prelude::*;
use crate::gate::{GateState, PeriodicGate};
use crate::time::Instant;

verus! {

/// Seconds between two records: fifteen minutes.
pub const WRITE_INTERVAL: u32 = 900;

/// Why a write to the card failed.
#[derive(Copy, Clone, Eq, PartialEq, Structural, Hash, Debug)]
pub enum StorageError {
    /// The card is full.
    NotEnoughSpace,
    /// Anything else.
    Other,
}

/// A card that is ready for use.
pub struct CardState {
    pub card_size_bytes: u64,
    /// The instant from which the next record's interval counts.
    pub last_write: Instant,
}

impl CardState {
    /// What paces the records on this card.
    pub open spec fn write_gate(self) -> GateState {
        GateState { interval: WRITE_INTERVAL, last_fired: self.last_write }
    }
}

/// The storage: a card that is ready, or none.
pub struct StorageState {
    pub card: Option<CardState>,
}

impl StorageState {
    pub open spec fn is_init(self) -> bool {
        self.card is Some
    }

    /// A card of the given size was made ready at `now`. If one is ready
    /// already, nothing changes.
    pub open spec fn initialized(self, now: Instant, card_size_bytes: u64) -> StorageState {
        if self.is_init() {
            self
        } else {
            StorageState { card: Some(CardState { card_size_bytes, last_write: now }) }
        }
    }

    /// Whether a record is written when one is offered at `now`: a card is
    /// ready, and the interval has passed since the last record, or since
    /// the card was made ready.
    pub open spec fn write_due(self, now: Instant) -> bool {
        self.card matches Some(card) && card.write_gate().is_due(now)
    }

    /// The storage after a record was offered at `now`. The interval
    /// counts anew from `now` as soon as the record is due, whether or not
    /// the write then succeeds.
    pub open spec fn write_asked(self, now: Instant) -> StorageState {
        if self.write_due(now) {
            StorageState {
                card: Some(
                    CardState {
                        card_size_bytes: self.card->Some_0.card_size_bytes,
                        last_write: now,
                    },
                ),
            }
        } else {
            self
        }
    }
}

struct InitializedStateData {
    card_size_bytes: u64,
    writing: PeriodicGate,
}

impl InitializedStateData {
    #[verifier::type_invariant]
    spec fn interval_is_fixed(self) -> bool {
        self.writing@.interval == WRITE_INTERVAL
    }

    spec fn card(self) -> CardState {
        CardState { card_size_bytes: self.card_size_bytes, last_write: self.writing@.last_fired }
    }

    fn new(now: &Instant, card_size_bytes: u64) -> (data: InitializedStateData)
        ensures
            data.card() == (CardState { card_size_bytes, last_write: *now }),
    {
        InitializedStateData {
            card_size_bytes,
            writing: PeriodicGate::new(WRITE_INTERVAL, *now),
        }
    }

    fn due(&mut self, now: &Instant) -> (due: bool)
        ensures
            due == old(self).card().write_gate().is_due(*now),
            final(self).card() == (CardState {
                card_size_bytes: old(self).card().card_size_bytes,
                last_write: old(self).card().write_gate().asked(*now).last_fired,
            }),
    {
        proof {
            use_type_invariant(&*self);
        }
        self.writing.due(now)
    }
}

/// The device's view of its storage card.
///
/// The card itself is driven by the firmware; this type keeps what was
/// learnt of it and paces the records.
pub struct FileSystem {
    data: Option<InitializedStateData>,
}

impl View for FileSystem {
    type V = StorageState;

    closed spec fn view(&self) -> StorageState {
        StorageState {
            card: match self.data {
                Some(data) => Some(data.card()),
                None => None,
            },
        }
    }
}

impl FileSystem {
    /// A storage with no card made ready yet.
    pub fn new() -> (fs: FileSystem)
        ensures
            fs@ == (StorageState { card: None }),
    {
        FileSystem { data: None }
    }

    /// Call this when card is connected, once the card has answered and
    /// told its size.
    pub fn init(&mut self, now: &Instant, card_size_bytes: u64)
        ensures
            final(self)@ == old(self)@.initialized(*now, card_size_bytes),
            final(self)@.is_init(),
    {
        if self.data.is_none() {
            self.data = Some(InitializedStateData::new(now, card_size_bytes));
        }
    }

    /// Call this when card is disconnected. Says whether a card was ready,
    /// so that the firmware releases it.
    pub fn deinit(&mut self) -> (was_init: bool)
        ensures
            was_init == old(self)@.is_init(),
            final(self)@ == (StorageState { card: None }),
    {
        let was_init = self.data.is_some();
        self.data = None;
        was_init
    }

    pub fn is_init(&self) -> (init: bool)
        ensures
            init == self@.is_init(),
    {
        self.data.is_some()
    }

    /// The size of the card that is ready, in bytes.
    pub fn card_size_bytes(&self) -> (size: Option<u64>)
        ensures
            size == match self@.card {
                Some(card) => Some(card.card_size_bytes),
                None => None,
            },
    {
        match &self.data {
            Some(data) => Some(data.card_size_bytes),
            None => None,
        }
    }

    /// Returns true if the record offered at `now` is to be written.
    pub fn write(&mut self, now: &Instant) -> (due: bool)
        ensures
            due == old(self)@.write_due(*now),
            final(self)@ == old(self)@.write_asked(*now),
    {
        match &mut self.data {
            Some(data) => data.due(now),
            None => false,
        }
    }
}

} // verus!
