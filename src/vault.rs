use crate::key::{keys_equal, Key};
use crate::transfer::{PdaSigner, TokenTransfer};
use vstd::prelude::*;

verus! {

/// A token vault run by an admin, accepting one mint.
#[derive(Clone, Copy, Debug)]
pub struct Vault {
    pub admin: Key,
    pub accepted_mint: Key,
}

/// What one user holds in a vault.
#[derive(Clone, Copy, Debug)]
pub struct UserDeposit {
    pub owner: Key,
    pub amount: u64,
}

#[derive(Clone, Copy, Debug, PartialEq, Eq, Structural)]
pub enum ErrorCode {
    /// The user's holding is of another mint than the vault accepts.
    InvalidMint,
    /// The user asks for more than the user's deposit.
    InsufficientBalance,
}

/// The accounts of `initialize`.
#[derive(Clone, Copy, Debug)]
pub struct InitializeVault {
    pub admin: Key,
}

/// The accounts of `deposit`, with the mint of the user's holding.
#[derive(Clone, Copy, Debug)]
pub struct Deposit {
    pub user: Key,
    pub user_token_account: Key,
    pub user_token_mint: Key,
    pub vault_token_account: Key,
}

/// The accounts of `withdraw`, with the mint of the user's holding and the
/// vault's address and bump.
#[derive(Clone, Copy, Debug)]
pub struct Withdraw {
    pub user: Key,
    pub user_token_account: Key,
    pub user_token_mint: Key,
    pub vault_token_account: Key,
    pub vault: Key,
    pub vault_bump: u8,
}

/// Creates the vault of `ctx.admin` for the mint `mint`.
pub fn initialize(ctx: &InitializeVault, mint: Key) -> (v: Vault)
    ensures
        v == (Vault { admin: ctx.admin, accepted_mint: mint }),
{
    Vault { admin: ctx.admin, accepted_mint: mint }
}

/// Moves `amount` of the accepted mint into the vault and credits the user.
pub fn deposit(ctx: &Deposit, vault: &Vault, user_deposit: &mut UserDeposit, amount: u64) -> (r:
    Result<TokenTransfer, ErrorCode>)
    requires
        old(user_deposit).amount + amount <= u64::MAX,
    ensures
        match r {
            Ok(t) => {
                &&& ctx.user_token_mint == vault.accepted_mint
                &&& *final(user_deposit) == (UserDeposit {
                    owner: ctx.user,
                    amount: (old(user_deposit).amount + amount) as u64,
                })
                &&& t == (TokenTransfer {
                    from: ctx.user_token_account,
                    to: ctx.vault_token_account,
                    authority: ctx.user,
                    amount,
                    signer: None,
                })
            },
            Err(e) => {
                &&& ctx.user_token_mint != vault.accepted_mint
                &&& e == ErrorCode::InvalidMint
                &&& *final(user_deposit) == *old(user_deposit)
            },
        },
{
    if !keys_equal(&ctx.user_token_mint, &vault.accepted_mint) {
        return Err(ErrorCode::InvalidMint);
    }
    user_deposit.owner = ctx.user;
    user_deposit.amount = user_deposit.amount + amount;
    Ok(
        TokenTransfer {
            from: ctx.user_token_account,
            to: ctx.vault_token_account,
            authority: ctx.user,
            amount,
            signer: None,
        },
    )
}

/// The error with which `withdraw` refuses, if any.
pub open spec fn withdraw_error(ctx: Withdraw, vault: Vault, d: UserDeposit, amount: u64) -> Option<
    ErrorCode,
> {
    if ctx.user_token_mint != vault.accepted_mint {
        Some(ErrorCode::InvalidMint)
    } else if d.amount < amount {
        Some(ErrorCode::InsufficientBalance)
    } else {
        None
    }
}

/// Debits the user's deposit by `amount` and moves it out of the vault, the
/// vault signing through its derived address.
pub fn withdraw(ctx: &Withdraw, vault: &Vault, user_deposit: &mut UserDeposit, amount: u64) -> (r:
    Result<TokenTransfer, ErrorCode>)
    ensures
        match r {
            Ok(t) => {
                &&& withdraw_error(*ctx, *vault, *old(user_deposit), amount) is None
                &&& *final(user_deposit) == (UserDeposit {
                    owner: old(user_deposit).owner,
                    amount: (old(user_deposit).amount - amount) as u64,
                })
                &&& t == (TokenTransfer {
                    from: ctx.vault_token_account,
                    to: ctx.user_token_account,
                    authority: ctx.vault,
                    amount,
                    signer: Some(PdaSigner { owner: vault.admin, bump: ctx.vault_bump }),
                })
            },
            Err(e) => {
                &&& withdraw_error(*ctx, *vault, *old(user_deposit), amount) == Some(e)
                &&& *final(user_deposit) == *old(user_deposit)
            },
        },
{
    if !keys_equal(&ctx.user_token_mint, &vault.accepted_mint) {
        return Err(ErrorCode::InvalidMint);
    }
    if user_deposit.amount < amount {
        return Err(ErrorCode::InsufficientBalance);
    }
    user_deposit.amount = user_deposit.amount - amount;
    Ok(
        TokenTransfer {
            from: ctx.vault_token_account,
            to: ctx.user_token_account,
            authority: ctx.vault,
            amount,
            signer: Some(PdaSigner { owner: vault.admin, bump: ctx.vault_bump }),
        },
    )
}

} // verus!
