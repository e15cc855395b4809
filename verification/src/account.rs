use vstd::prelude::*;

verus! {

/// Identity of a participant or record in the external ledger. The substrate
/// addresses everything by key; the business rules only ever compare keys for
/// equality, so a key is modeled as a plain value.
#[derive(Clone, Copy, PartialEq, Eq, Structural, Debug, Hash)]
pub struct AccountId {
    pub value: u64,
}

impl Default for AccountId {
    /// The all-zero key: the sentinel that marks "no real bid yet" on a fresh
    /// auction slot.
    fn default() -> (r: AccountId)
        ensures
            r == (AccountId { value: 0 }),
    {
        AccountId { value: 0 }
    }
}

/// One account of the external ledger as the settlement rules see it: whose it
/// is and how much value it holds, in the ledger's base unit (lamports).
#[derive(Clone, Copy, PartialEq, Eq, Structural, Debug)]
pub struct LedgerAccount {
    pub key: AccountId,
    pub lamports: u64,
}

} // verus!
