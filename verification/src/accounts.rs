//! The references that each operation is called with.

use vstd::prelude::*;
use crate::identity::Identity;
use crate::record::PositionSlot;

verus! {

/// What an operation is called with: the identity of the program that runs
/// it, and the accounts it works on.
#[derive(Clone, Copy, Debug, PartialEq, Eq, Hash)]
pub struct Context<T> {
    pub program_id: Identity,
    pub accounts: T,
}

/// Accounts of a token deposit.
#[derive(Clone, Copy, Debug, PartialEq, Eq, Hash)]
pub struct DepositToken {
    /// The owner, who signs.
    pub sender_account: Identity,
    /// The slot of the position.
    pub dca_account: PositionSlot,
    /// The vault: it must be the authority derived from owner and position.
    pub vault: Identity,
    /// The token ledger.
    pub token_program: Identity,
    /// The asset of the position: the token that is deposited.
    pub token_mint: Identity,
    /// The wrapped form of the native currency.
    pub token_mint_wrap: Identity,
    pub system_program: Identity,
    /// The owner's holding of the asset.
    pub sender_ata: Identity,
    /// The vault's holding of the asset.
    pub vault_token_ata: Identity,
    /// The vault's holding of wrapped native currency.
    pub vault_wrap_ata: Identity,
    pub associated_token_program: Identity,
}

/// Accounts of a deposit of native currency.
#[derive(Clone, Copy, Debug, PartialEq, Eq, Hash)]
pub struct DepositSol {
    /// The slot of the position.
    pub dca_account: PositionSlot,
    /// The owner, who signs and pays.
    pub sender_account: Identity,
    /// The vault: it must be the authority derived from owner and position.
    pub vault: Identity,
    /// The token ledger.
    pub token_program: Identity,
    /// The asset of the position: the token that the deposit is converted
    /// into.
    pub token_mint: Identity,
    /// The wrapped form of the native currency.
    pub token_mint_wrap: Identity,
    pub system_program: Identity,
    /// The owner's holding of wrapped native currency.
    pub sender_ata: Identity,
    /// The vault's holding of the target asset.
    pub vault_token_ata: Identity,
    /// The vault's holding of wrapped native currency.
    pub vault_wrap_ata: Identity,
    pub associated_token_program: Identity,
}

/// Accounts of a schedule activation.
#[derive(Clone, Copy, Debug, PartialEq, Eq, Hash)]
pub struct InitializeDca {
    /// The slot of the position.
    pub dca_account: PositionSlot,
}

/// Accounts of a scheduled swap.
#[derive(Clone, Copy, Debug, PartialEq, Eq, Hash)]
pub struct SwapBaseIn {
    pub amm: Identity,
    pub amm_authority: Identity,
    pub amm_open_orders: Identity,
    pub amm_target_orders: Identity,
    pub pool_coin_token_account: Identity,
    pub pool_pc_token_account: Identity,
    pub serum_program: Identity,
    pub serum_market: Identity,
    pub serum_bids: Identity,
    pub serum_asks: Identity,
    pub serum_event_queue: Identity,
    pub serum_coin_vault_account: Identity,
    pub serum_pc_vault_account: Identity,
    pub serum_vault_signer: Identity,
    /// The vault's holding that is spent.
    pub user_source_token_account: Identity,
    /// The vault's holding that receives the output.
    pub user_destination_token_account: Identity,
    /// The vault authority that holds the funds.
    pub user_source_owner: Identity,
    /// The token ledger.
    pub spl_token_program: Identity,
    /// The slot of the position.
    pub dca_account: PositionSlot,
    /// The owner, who signs.
    pub sender_account: Identity,
    pub system_program: Identity,
}

} // verus!
