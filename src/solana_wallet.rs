use crate::key::{keys_equal, Key};
use crate::transfer::LamportTransfer;
use vstd::prelude::*;

verus! {

/// A wallet of native currency that only its owner can draw on.
#[derive(Clone, Copy, Debug)]
pub struct WalletAccount {
    pub owner: Key,
}

#[derive(Clone, Copy, Debug, PartialEq, Eq, Structural)]
pub enum WalletError {
    /// The caller is not the wallet's owner.
    Unauthorized,
}

/// The accounts of `initialize`.
#[derive(Clone, Copy, Debug)]
pub struct Initialize {
    pub owner: Key,
}

/// The accounts of `withdraw`.
#[derive(Clone, Copy, Debug)]
pub struct Withdraw {
    pub wallet_account: Key,
    pub owner: Key,
}

/// Creates the wallet of `ctx.owner`.
pub fn initialize(ctx: &Initialize) -> (w: WalletAccount)
    ensures
        w == (WalletAccount { owner: ctx.owner }),
{
    WalletAccount { owner: ctx.owner }
}

/// Pays `amount` out of the wallet to its owner.
pub fn withdraw(ctx: &Withdraw, wallet: &WalletAccount, amount: u64) -> (r: Result<
    LamportTransfer,
    WalletError,
>)
    ensures
        match r {
            Ok(t) => wallet.owner == ctx.owner && t == (LamportTransfer {
                from: ctx.wallet_account,
                to: ctx.owner,
                amount,
            }),
            Err(e) => wallet.owner != ctx.owner && e == WalletError::Unauthorized,
        },
{
    if !keys_equal(&wallet.owner, &ctx.owner) {
        return Err(WalletError::Unauthorized);
    }
    Ok(LamportTransfer { from: ctx.wallet_account, to: ctx.owner, amount })
}

} // verus!
