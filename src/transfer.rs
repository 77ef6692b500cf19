use crate::key::Key;
use vstd::prelude::*;

verus! {

/// The seeds by which a derived record signs for itself: the program's fixed
/// tag, the record's owner and the bump found for them.
#[derive(Clone, Copy, Debug)]
pub struct PdaSigner {
    pub owner: Key,
    pub bump: u8,
}

/// A movement of tokens between two holding accounts, to be carried out by the
/// token program.
#[derive(Clone, Copy, Debug)]
pub struct TokenTransfer {
    pub from: Key,
    pub to: Key,
    pub authority: Key,
    pub amount: u64,
    /// Present when the authority is a derived record rather than a signer.
    pub signer: Option<PdaSigner>,
}

/// A movement of native currency from one account to another.
#[derive(Clone, Copy, Debug)]
pub struct LamportTransfer {
    pub from: Key,
    pub to: Key,
    pub amount: u64,
}

} // verus!
