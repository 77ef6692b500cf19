use crate::auction::is_nft;
use crate::key::{keys_equal, Key};
use crate::transfer::{PdaSigner, TokenTransfer};
use vstd::prelude::*;

verus! {

/// A token wallet that anyone can pay into and only its authority can draw on.
#[derive(Clone, Copy, Debug)]
pub struct WalletAccount {
    pub authority: Key,
}

#[derive(Clone, Copy, Debug, PartialEq, Eq, Structural)]
pub enum WalletError {
    /// The caller is not the wallet's authority.
    Unauthorized,
    /// A single indivisible unit moves only as one.
    InvalidNFTAmount,
}

/// The accounts of `initialize`.
#[derive(Clone, Copy, Debug)]
pub struct Initialize {
    pub authority: Key,
}

/// The accounts of `deposit`, with what the mint says of the token.
#[derive(Clone, Copy, Debug)]
pub struct Deposit {
    pub mint_decimals: u8,
    pub mint_supply: u64,
    pub user: Key,
    pub user_token_account: Key,
    pub wallet_token_account: Key,
}

/// The accounts of `withdraw`, with what the mint says of the token and the
/// wallet's address and bump.
#[derive(Clone, Copy, Debug)]
pub struct Withdraw {
    pub mint_decimals: u8,
    pub mint_supply: u64,
    pub wallet: Key,
    pub wallet_bump: u8,
    pub user_token_account: Key,
    pub wallet_token_account: Key,
    pub authority: Key,
}

/// Whether `amount` may move of a token with this mint.
pub open spec fn amount_allowed(decimals: u8, supply: u64, amount: u64) -> bool {
    !is_nft(decimals, supply) || amount == 1
}

/// Creates the wallet of `ctx.authority`.
pub fn initialize(ctx: &Initialize) -> (w: WalletAccount)
    ensures
        w == (WalletAccount { authority: ctx.authority }),
{
    WalletAccount { authority: ctx.authority }
}

fn amount_ok(decimals: u8, supply: u64, amount: u64) -> (r: bool)
    ensures
        r == amount_allowed(decimals, supply, amount),
{
    let nft = decimals == 0 && supply == 1;
    !nft || amount == 1
}

/// Moves `amount` from the user's holding into the wallet's.
pub fn deposit(ctx: &Deposit, amount: u64) -> (r: Result<TokenTransfer, WalletError>)
    ensures
        match r {
            Ok(t) => amount_allowed(ctx.mint_decimals, ctx.mint_supply, amount) && t == (
            TokenTransfer {
                from: ctx.user_token_account,
                to: ctx.wallet_token_account,
                authority: ctx.user,
                amount,
                signer: None,
            }),
            Err(e) => !amount_allowed(ctx.mint_decimals, ctx.mint_supply, amount) && e
                == WalletError::InvalidNFTAmount,
        },
{
    if !amount_ok(ctx.mint_decimals, ctx.mint_supply, amount) {
        return Err(WalletError::InvalidNFTAmount);
    }
    Ok(
        TokenTransfer {
            from: ctx.user_token_account,
            to: ctx.wallet_token_account,
            authority: ctx.user,
            amount,
            signer: None,
        },
    )
}

/// Moves `amount` from the wallet's holding to the user's, the wallet signing
/// through its derived address.
pub fn withdraw(ctx: &Withdraw, wallet: &WalletAccount, amount: u64) -> (r: Result<
    TokenTransfer,
    WalletError,
>)
    ensures
        match r {
            Ok(t) => {
                &&& amount_allowed(ctx.mint_decimals, ctx.mint_supply, amount)
                &&& wallet.authority == ctx.authority
                &&& t == (TokenTransfer {
                    from: ctx.wallet_token_account,
                    to: ctx.user_token_account,
                    authority: ctx.wallet,
                    amount,
                    signer: Some(PdaSigner { owner: wallet.authority, bump: ctx.wallet_bump }),
                })
            },
            Err(e) => if !amount_allowed(ctx.mint_decimals, ctx.mint_supply, amount) {
                e == WalletError::InvalidNFTAmount
            } else {
                wallet.authority != ctx.authority && e == WalletError::Unauthorized
            },
        },
{
    if !amount_ok(ctx.mint_decimals, ctx.mint_supply, amount) {
        return Err(WalletError::InvalidNFTAmount);
    }
    if !keys_equal(&wallet.authority, &ctx.authority) {
        return Err(WalletError::Unauthorized);
    }
    Ok(
        TokenTransfer {
            from: ctx.wallet_token_account,
            to: ctx.user_token_account,
            authority: ctx.wallet,
            amount,
            signer: Some(PdaSigner { owner: wallet.authority, bump: ctx.wallet_bump }),
        },
    )
}

} // verus!
