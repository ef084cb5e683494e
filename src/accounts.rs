use vstd::prelude::*;

use crate::pubkey::Pubkey;

verus! {

/// Who creates an entry, and what they fund its storage with.
pub struct CreateJournalEntry {
    /// The signing owner of the new entry.
    pub owner: Pubkey,
    /// Lamports the owner moves into the new entry's storage.
    pub rent: u64,
}

/// Who updates an entry.
pub struct UpdateJournalEntry {
    /// The signing owner of the entry.
    pub owner: Pubkey,
}

/// Who deletes an entry, and so receives its storage funds back.
pub struct DeleteJournalEntry {
    /// The signing owner of the entry.
    pub owner: Pubkey,
}

} // verus!
