//! Failure taxonomy of the companion ledger. Every mutating operation either
//! fully applies its effect or reports exactly one of these and applies none.

use vstd::prelude::*;

verus! {

/// The reasons an operation on a companion or accessory record can fail.
#[derive(Clone, Copy, Debug, PartialEq, Eq, Structural)]
pub enum CompanionError {
    /// A create or mint targeted a derived address that already holds a record.
    DuplicateRecord,
    /// The signer does not match the record's stored owner.
    Unauthorized,
    /// A mood value outside the inclusive range 0..=100 was supplied.
    OutOfRange,
    /// The interaction counter is already at its maximum representable value.
    CounterOverflow,
    /// An accessory name longer than the 50-character bound was supplied.
    NameTooLong,
}

impl CompanionError {
    /// What `message` returns for each failure.
    pub open spec fn message_spec(self) -> Seq<char> {
        match self {
            CompanionError::DuplicateRecord => "A record already exists at the derived address"@,
            CompanionError::Unauthorized => "Only the companion owner can perform this action"@,
            CompanionError::OutOfRange => "Mood value must be between 0 and 100"@,
            CompanionError::CounterOverflow => "Interaction count overflow"@,
            CompanionError::NameTooLong => "Accessory name must be at most 50 characters"@,
        }
    }

    /// A human-readable description of the failure, surfaced verbatim to the
    /// caller.
    pub fn message(&self) -> (m: String)
        ensures
            m@ == self.message_spec(),
    {
        match self {
            CompanionError::DuplicateRecord => {
                String::from_str("A record already exists at the derived address")
            },
            CompanionError::Unauthorized => {
                String::from_str("Only the companion owner can perform this action")
            },
            CompanionError::OutOfRange => {
                String::from_str("Mood value must be between 0 and 100")
            },
            CompanionError::CounterOverflow => {
                String::from_str("Interaction count overflow")
            },
            CompanionError::NameTooLong => {
                String::from_str("Accessory name must be at most 50 characters")
            },
        }
    }
}

} // verus!
