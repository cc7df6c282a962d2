//! The operations on a position: deposit, schedule activation, swap.
//!
//! Each operation decides on plain values. A deposit and a swap hand out
//! what is to be asked of the ledger or of the exchange; `ledger::start` and
//! `ledger::advance` lead through the requests, and the replies decide how
//! the operation ends.
//!
//! Two refusals have no reason of their own among the errors and borrow one.
//! A deposit into the position of another owner fails with
//! `AuthorityDerivationMismatch`, as the vault of that position is not the
//! caller's; a deposit of another asset fails with `LedgerTransferRejected`,
//! as a transfer of the wrong asset does. A swap whose authority is the
//! derived one, on a position without an active record, fails with
//! `RecordNotFound`.

use vstd::prelude::*;
use crate::accounts::{Context, DepositSol, DepositToken, InitializeDca, SwapBaseIn};
use crate::authority::{authority_view, derive_vault_authority, vault_authority, VaultAuthority};
use crate::error::DcaError;
use crate::identity::Identity;
use crate::ledger::{progress_after, DerivationProof, LedgerReply, LedgerRequest, Progress, SwapRequest, SwapRoute};
use crate::record::{DcaData, Direction, PositionSlot, Stage, FLAG_MINT_TO_SOL, FLAG_SOL_TO_MINT};

verus! {

/// Why a deposit is refused, if it is. The vault must be the authority
/// derived from owner and position. Where the slot holds a record, the
/// caller must be its owner and the asset must be its asset: owner and asset
/// are written by the first deposit and never changed.
pub open spec fn deposit_refusal(
    slot: PositionSlot,
    owner: Identity,
    mint: Identity,
    vault: Identity,
    derived: Option<(Seq<u8>, u8)>,
) -> Option<DcaError> {
    if !(derived matches Some((address, _)) && address == vault@) {
        Some(DcaError::AuthorityDerivationMismatch)
    } else {
        match slot.record {
            Some(record) => if record.sender_account != owner {
                Some(DcaError::AuthorityDerivationMismatch)
            } else if record.mint_address != mint {
                Some(DcaError::LedgerTransferRejected)
            } else {
                None
            },
            None => None,
        }
    }
}

/// The accounts of a token deposit once `amount` was deposited.
pub open spec fn token_deposited(accounts: DepositToken, amount: u64) -> DepositToken {
    DepositToken {
        dca_account: PositionSlot {
            key: accounts.dca_account.key,
            record: Some(
                accounts.dca_account.record_or_blank().deposited(
                    accounts.sender_account,
                    accounts.token_mint,
                    FLAG_MINT_TO_SOL,
                    amount,
                ),
            ),
        },
        ..accounts
    }
}

/// What a token deposit asks of the ledger: one transfer of `amount` from the
/// owner's holding to the vault's, on the owner's word.
pub open spec fn token_deposit_requests(accounts: DepositToken, amount: u64) -> Seq<LedgerRequest> {
    seq![
        LedgerRequest::TokenTransfer {
            program: accounts.token_program,
            from: accounts.sender_ata,
            to: accounts.vault_token_ata,
            authority: accounts.sender_account,
            amount,
        },
    ]
}

/// The accounts of a native deposit once `amount` was deposited.
pub open spec fn sol_deposited(accounts: DepositSol, amount: u64) -> DepositSol {
    DepositSol {
        dca_account: PositionSlot {
            key: accounts.dca_account.key,
            record: Some(
                accounts.dca_account.record_or_blank().deposited(
                    accounts.sender_account,
                    accounts.token_mint,
                    FLAG_SOL_TO_MINT,
                    amount,
                ),
            ),
        },
        ..accounts
    }
}

/// What a native deposit asks of the ledger: a transfer of `amount` from the
/// owner to the vault's wrapped holding, then the wrap of what that holding
/// received.
pub open spec fn sol_deposit_requests(accounts: DepositSol, amount: u64) -> Seq<LedgerRequest> {
    seq![
        LedgerRequest::NativeTransfer {
            program: accounts.system_program,
            from: accounts.sender_account,
            to: accounts.vault_wrap_ata,
            amount,
        },
        LedgerRequest::SyncNative { program: accounts.token_program, account: accounts.vault_wrap_ata },
    ]
}

/// The route that the accounts of a swap describe.
pub open spec fn route_of(accounts: SwapBaseIn) -> SwapRoute {
    SwapRoute {
        amm: accounts.amm,
        amm_authority: accounts.amm_authority,
        amm_open_orders: accounts.amm_open_orders,
        amm_target_orders: accounts.amm_target_orders,
        pool_coin_token_account: accounts.pool_coin_token_account,
        pool_pc_token_account: accounts.pool_pc_token_account,
        serum_program: accounts.serum_program,
        serum_market: accounts.serum_market,
        serum_bids: accounts.serum_bids,
        serum_asks: accounts.serum_asks,
        serum_event_queue: accounts.serum_event_queue,
        serum_coin_vault_account: accounts.serum_coin_vault_account,
        serum_pc_vault_account: accounts.serum_pc_vault_account,
        serum_vault_signer: accounts.serum_vault_signer,
    }
}

/// The least of two amounts.
pub open spec fn least(a: u64, b: u64) -> u64 {
    if a <= b {
        a
    } else {
        b
    }
}

/// The amount of one step: what was asked for, but no more than the step
/// amount on record and no more than the vault's source holding has.
pub open spec fn step_of(amount_in: u64, dca_amount: u64, source_balance: u64) -> u64 {
    least(amount_in, least(dca_amount, source_balance))
}

/// How a swap is decided once the authority of the position has been derived
/// again, as address and bump, and the balance of the vault's source holding
/// has been read.
///
/// The derived address must be the authority that holds the funds, else the
/// swap fails with `AuthorityDerivationMismatch`, whatever the slot holds.
/// Then the slot must hold a record whose schedule is active, else the swap
/// fails with `RecordNotFound`; and the caller must be the owner on record,
/// else it fails with `AuthorityDerivationMismatch`. Then the request goes to
/// the exchange for one step: the amount asked for, cut down to the step
/// amount on record and to the balance of the source where it is more; the
/// minimum output as given; and the proof of the derivation.
pub open spec fn authorized_swap(
    ctx: Context<SwapBaseIn>,
    derived: Option<(Seq<u8>, u8)>,
    source_balance: u64,
    amount_in: u64,
    minimum_amount_out: u64,
) -> Result<SwapRequest, DcaError> {
    let accounts = ctx.accounts;
    match derived {
        None => Err(DcaError::AuthorityDerivationMismatch),
        Some((address, bump)) => if address != accounts.user_source_owner@ {
            Err(DcaError::AuthorityDerivationMismatch)
        } else {
            match accounts.dca_account.record {
                None => Err(DcaError::RecordNotFound),
                Some(record) => if !record.state {
                    Err(DcaError::RecordNotFound)
                } else if record.sender_account != accounts.sender_account {
                    Err(DcaError::AuthorityDerivationMismatch)
                } else {
                    Ok(
                        SwapRequest {
                            program_id: ctx.program_id,
                            route: route_of(accounts),
                            source: accounts.user_source_token_account,
                            destination: accounts.user_destination_token_account,
                            authority: accounts.user_source_owner,
                            amount_in: step_of(amount_in, record.dca_amount, source_balance),
                            minimum_amount_out,
                            proof: DerivationProof {
                                owner: accounts.sender_account,
                                position: accounts.dca_account.key,
                                bump,
                            },
                        },
                    )
                },
            }
        },
    }
}

/// How a swap is decided: as `authorized_swap` decides it for the authority
/// derived from the owner, the position and the program of the context.
pub open spec fn swap_decision(
    ctx: Context<SwapBaseIn>,
    source_balance: u64,
    amount_in: u64,
    minimum_amount_out: u64,
) -> Result<SwapRequest, DcaError> {
    authorized_swap(
        ctx,
        vault_authority(ctx.accounts.sender_account@, ctx.accounts.dca_account.key@, ctx.program_id@),
        source_balance,
        amount_in,
        minimum_amount_out,
    )
}

/// Decides whether a deposit is refused.
fn check_deposit(
    slot: &PositionSlot,
    owner: &Identity,
    mint: &Identity,
    vault: &Identity,
    derived: Option<VaultAuthority>,
) -> (refusal: Option<DcaError>)
    ensures
        refusal == deposit_refusal(*slot, *owner, *mint, *vault, authority_view(derived)),
{
    let authority = match derived {
        Some(authority) => authority,
        None => {
            return Some(DcaError::AuthorityDerivationMismatch);
        },
    };
    if !authority.address.same(vault) {
        return Some(DcaError::AuthorityDerivationMismatch);
    }
    match slot.record {
        Some(record) => if !record.sender_account.same(owner) {
            Some(DcaError::AuthorityDerivationMismatch)
        } else if !record.mint_address.same(mint) {
            Some(DcaError::LedgerTransferRejected)
        } else {
            None
        },
        None => None,
    }
}

/// Deposits `amount` of a token, for a given derivation of the position's
/// authority.
///
/// The deposit is refused, and nothing changes, where `deposit_refusal` gives
/// a reason: the vault is not `derived`, or the slot holds the record of
/// another owner or of another asset. Otherwise the record is created where
/// the slot is vacant, and written: amount, owner, asset and direction are
/// set and the schedule is switched off. A second deposit overwrites the
/// amount; it does not add to it. Returned is what the ledger must carry out
/// for the deposit to stand.
pub fn deposit_token_with_authority(
    ctx: &mut Context<DepositToken>,
    derived: Option<VaultAuthority>,
    amount: u64,
) -> (r: Result<Vec<LedgerRequest>, DcaError>)
    ensures
        match deposit_refusal(
            old(ctx).accounts.dca_account,
            old(ctx).accounts.sender_account,
            old(ctx).accounts.token_mint,
            old(ctx).accounts.vault,
            authority_view(derived),
        ) {
            Some(error) => r == Err::<Vec<LedgerRequest>, DcaError>(error) && *final(ctx) == *old(ctx),
            None => r matches Ok(requests) && requests@ == token_deposit_requests(old(ctx).accounts, amount)
                && final(ctx).program_id == old(ctx).program_id && final(ctx).accounts == token_deposited(
                old(ctx).accounts,
                amount,
            ),
        },
{
    match check_deposit(
        &ctx.accounts.dca_account,
        &ctx.accounts.sender_account,
        &ctx.accounts.token_mint,
        &ctx.accounts.vault,
        derived,
    ) {
        Some(error) => {
            return Err(error);
        },
        None => {},
    }
    let mut record = match ctx.accounts.dca_account.record {
        Some(record) => record,
        None => DcaData::default(),
    };
    record.record_deposit(ctx.accounts.sender_account, ctx.accounts.token_mint, FLAG_MINT_TO_SOL, amount);
    ctx.accounts.dca_account.record = Some(record);

    let mut requests: Vec<LedgerRequest> = Vec::new();
    requests.push(
        LedgerRequest::TokenTransfer {
            program: ctx.accounts.token_program,
            from: ctx.accounts.sender_ata,
            to: ctx.accounts.vault_token_ata,
            authority: ctx.accounts.sender_account,
            amount,
        },
    );
    assert(requests@ =~= token_deposit_requests(old(ctx).accounts, amount));
    Ok(requests)
}

/// Deposits `amount` of a token into the position: as
/// `deposit_token_with_authority` does for the authority derived from the
/// owner, the position and the program of the context.
pub fn deposit_token(ctx: &mut Context<DepositToken>, amount: u64) -> (r: Result<Vec<LedgerRequest>, DcaError>)
    ensures
        match deposit_refusal(
            old(ctx).accounts.dca_account,
            old(ctx).accounts.sender_account,
            old(ctx).accounts.token_mint,
            old(ctx).accounts.vault,
            vault_authority(
                old(ctx).accounts.sender_account@,
                old(ctx).accounts.dca_account.key@,
                old(ctx).program_id@,
            ),
        ) {
            Some(error) => r == Err::<Vec<LedgerRequest>, DcaError>(error) && *final(ctx) == *old(ctx),
            None => r matches Ok(requests) && requests@ == token_deposit_requests(old(ctx).accounts, amount)
                && final(ctx).program_id == old(ctx).program_id && final(ctx).accounts == token_deposited(
                old(ctx).accounts,
                amount,
            ),
        },
{
    let derived = derive_vault_authority(
        &ctx.accounts.sender_account,
        &ctx.accounts.dca_account.key,
        &ctx.program_id,
    );
    deposit_token_with_authority(ctx, derived, amount)
}

/// Deposits `amount` of native currency, for a given derivation of the
/// position's authority.
///
/// The deposit is refused as a token deposit is. Otherwise the record is
/// written as by a token deposit, with the other direction. Returned is what
/// the ledger must carry out, in this order: the transfer to the vault's
/// wrapped holding, then the wrap.
pub fn deposit_sol_with_authority(
    ctx: &mut Context<DepositSol>,
    derived: Option<VaultAuthority>,
    amount: u64,
) -> (r: Result<Vec<LedgerRequest>, DcaError>)
    ensures
        match deposit_refusal(
            old(ctx).accounts.dca_account,
            old(ctx).accounts.sender_account,
            old(ctx).accounts.token_mint,
            old(ctx).accounts.vault,
            authority_view(derived),
        ) {
            Some(error) => r == Err::<Vec<LedgerRequest>, DcaError>(error) && *final(ctx) == *old(ctx),
            None => r matches Ok(requests) && requests@ == sol_deposit_requests(old(ctx).accounts, amount)
                && final(ctx).program_id == old(ctx).program_id && final(ctx).accounts == sol_deposited(
                old(ctx).accounts,
                amount,
            ),
        },
{
    match check_deposit(
        &ctx.accounts.dca_account,
        &ctx.accounts.sender_account,
        &ctx.accounts.token_mint,
        &ctx.accounts.vault,
        derived,
    ) {
        Some(error) => {
            return Err(error);
        },
        None => {},
    }
    let mut record = match ctx.accounts.dca_account.record {
        Some(record) => record,
        None => DcaData::default(),
    };
    record.record_deposit(ctx.accounts.sender_account, ctx.accounts.token_mint, FLAG_SOL_TO_MINT, amount);
    ctx.accounts.dca_account.record = Some(record);

    let mut requests: Vec<LedgerRequest> = Vec::new();
    requests.push(
        LedgerRequest::NativeTransfer {
            program: ctx.accounts.system_program,
            from: ctx.accounts.sender_account,
            to: ctx.accounts.vault_wrap_ata,
            amount,
        },
    );
    requests.push(
        LedgerRequest::SyncNative { program: ctx.accounts.token_program, account: ctx.accounts.vault_wrap_ata },
    );
    assert(requests@ =~= sol_deposit_requests(old(ctx).accounts, amount));
    Ok(requests)
}

/// Deposits `amount` of native currency into the position: as
/// `deposit_sol_with_authority` does for the authority derived from the
/// owner, the position and the program of the context.
pub fn deposit_sol(ctx: &mut Context<DepositSol>, amount: u64) -> (r: Result<Vec<LedgerRequest>, DcaError>)
    ensures
        match deposit_refusal(
            old(ctx).accounts.dca_account,
            old(ctx).accounts.sender_account,
            old(ctx).accounts.token_mint,
            old(ctx).accounts.vault,
            vault_authority(
                old(ctx).accounts.sender_account@,
                old(ctx).accounts.dca_account.key@,
                old(ctx).program_id@,
            ),
        ) {
            Some(error) => r == Err::<Vec<LedgerRequest>, DcaError>(error) && *final(ctx) == *old(ctx),
            None => r matches Ok(requests) && requests@ == sol_deposit_requests(old(ctx).accounts, amount)
                && final(ctx).program_id == old(ctx).program_id && final(ctx).accounts == sol_deposited(
                old(ctx).accounts,
                amount,
            ),
        },
{
    let derived = derive_vault_authority(
        &ctx.accounts.sender_account,
        &ctx.accounts.dca_account.key,
        &ctx.program_id,
    );
    deposit_sol_with_authority(ctx, derived, amount)
}

/// Sets the schedule of a position and activates it.
///
/// Fails with `RecordNotFound`, and changes nothing, where the slot holds no
/// record. Otherwise the three step fields are overwritten and the schedule
/// is active; the rest of the record stays.
pub fn initialize_dca(ctx: &mut Context<InitializeDca>, start_time: u64, dca_amount: u64, dca_time: u64) -> (r: Result<(), DcaError>)
    ensures
        match old(ctx).accounts.dca_account.record {
            Some(record) => r == Ok::<(), DcaError>(()) && *final(ctx) == (Context {
                program_id: old(ctx).program_id,
                accounts: InitializeDca {
                    dca_account: PositionSlot {
                        key: old(ctx).accounts.dca_account.key,
                        record: Some(record.scheduled(start_time, dca_amount, dca_time)),
                    },
                },
            }),
            None => r == Err::<(), DcaError>(DcaError::RecordNotFound) && *final(ctx) == *old(ctx),
        },
{
    match ctx.accounts.dca_account.record {
        Some(mut record) => {
            record.record_schedule(start_time, dca_amount, dca_time);
            ctx.accounts.dca_account.record = Some(record);
            Ok(())
        },
        None => Err(DcaError::RecordNotFound),
    }
}

/// Decides a swap for a given derivation of the position's authority and a
/// given balance of the vault's source holding, as `authorized_swap` says:
/// one step of at most the step amount on record and of at most
/// `source_balance`, out of the vault of the owner on record, for
/// `minimum_amount_out` or more.
///
/// Nothing holds a swap back until its time has come: start time and step
/// interval are not read, and nothing is booked after the swap.
pub fn authorize_swap(
    ctx: &Context<SwapBaseIn>,
    derived: Option<VaultAuthority>,
    source_balance: u64,
    amount_in: u64,
    minimum_amount_out: u64,
) -> (r: Result<SwapRequest, DcaError>)
    ensures
        r == authorized_swap(*ctx, authority_view(derived), source_balance, amount_in, minimum_amount_out),
{
    let accounts = &ctx.accounts;
    let authority = match derived {
        Some(authority) => authority,
        None => {
            return Err(DcaError::AuthorityDerivationMismatch);
        },
    };
    if !authority.address.same(&accounts.user_source_owner) {
        return Err(DcaError::AuthorityDerivationMismatch);
    }
    let record = match accounts.dca_account.record {
        Some(record) => record,
        None => {
            return Err(DcaError::RecordNotFound);
        },
    };
    if !record.state {
        return Err(DcaError::RecordNotFound);
    }
    if !record.sender_account.same(&accounts.sender_account) {
        return Err(DcaError::AuthorityDerivationMismatch);
    }
    let limit: u64 = if record.dca_amount <= source_balance {
        record.dca_amount
    } else {
        source_balance
    };
    let step: u64 = if amount_in <= limit {
        amount_in
    } else {
        limit
    };
    let route = SwapRoute {
        amm: accounts.amm,
        amm_authority: accounts.amm_authority,
        amm_open_orders: accounts.amm_open_orders,
        amm_target_orders: accounts.amm_target_orders,
        pool_coin_token_account: accounts.pool_coin_token_account,
        pool_pc_token_account: accounts.pool_pc_token_account,
        serum_program: accounts.serum_program,
        serum_market: accounts.serum_market,
        serum_bids: accounts.serum_bids,
        serum_asks: accounts.serum_asks,
        serum_event_queue: accounts.serum_event_queue,
        serum_coin_vault_account: accounts.serum_coin_vault_account,
        serum_pc_vault_account: accounts.serum_pc_vault_account,
        serum_vault_signer: accounts.serum_vault_signer,
    };
    Ok(
        SwapRequest {
            program_id: ctx.program_id,
            route,
            source: accounts.user_source_token_account,
            destination: accounts.user_destination_token_account,
            authority: accounts.user_source_owner,
            amount_in: step,
            minimum_amount_out,
            proof: DerivationProof {
                owner: accounts.sender_account,
                position: accounts.dca_account.key,
                bump: authority.bump,
            },
        },
    )
}

/// Prepares one swap out of the vault: as `authorize_swap` decides it for the
/// authority derived again from the owner, the position and the program of
/// the context. `source_balance` is what the vault's source holding has.
pub fn swap_from_sol(
    ctx: &Context<SwapBaseIn>,
    source_balance: u64,
    amount_in: u64,
    minimum_amount_out: u64,
) -> (r: Result<SwapRequest, DcaError>)
    ensures
        r == swap_decision(*ctx, source_balance, amount_in, minimum_amount_out),
{
    let derived = derive_vault_authority(
        &ctx.accounts.sender_account,
        &ctx.accounts.dca_account.key,
        &ctx.program_id,
    );
    authorize_swap(ctx, derived, source_balance, amount_in, minimum_amount_out)
}

/// After a deposit the record holds the deposited amount, the owner, the
/// asset and the direction of the entry point that was used, and the schedule
/// is off; the ledger is asked to move exactly that amount into the vault's
/// holding.
pub proof fn lemma_deposit_records_amount(token: DepositToken, sol: DepositSol, amount: u64)
    ensures
        token_deposited(token, amount).dca_account.record is Some,
        token_deposited(token, amount).dca_account.record->0.total_amount == amount,
        token_deposited(token, amount).dca_account.record->0.sender_account == token.sender_account,
        token_deposited(token, amount).dca_account.record->0.mint_address == token.token_mint,
        token_deposited(token, amount).dca_account.record->0.direction() == Some(Direction::TokenToNative),
        token_deposited(token, amount).dca_account.stage() == Stage::Funded,
        token_deposit_requests(token, amount).len() == 1,
        token_deposit_requests(token, amount)[0] matches LedgerRequest::TokenTransfer { to, amount: moved, .. }
            && to == token.vault_token_ata && moved == amount,
        sol_deposited(sol, amount).dca_account.record is Some,
        sol_deposited(sol, amount).dca_account.record->0.total_amount == amount,
        sol_deposited(sol, amount).dca_account.record->0.sender_account == sol.sender_account,
        sol_deposited(sol, amount).dca_account.record->0.mint_address == sol.token_mint,
        sol_deposited(sol, amount).dca_account.record->0.direction() == Some(Direction::NativeToToken),
        sol_deposited(sol, amount).dca_account.stage() == Stage::Funded,
        sol_deposit_requests(sol, amount).len() == 2,
        sol_deposit_requests(sol, amount)[0] matches LedgerRequest::NativeTransfer { to, amount: moved, .. }
            && to == sol.vault_wrap_ata && moved == amount,
{
}

/// Owner and asset of a record are written once. A deposit that is not
/// refused finds the slot vacant or finds its own owner and asset on record,
/// so the record afterwards has the owner and the asset that it had before,
/// where it had any; and a deposit that is let through once is let through
/// again.
pub proof fn lemma_owner_and_asset_are_kept(token: DepositToken, derived: Option<(Seq<u8>, u8)>, amount: u64)
    requires
        deposit_refusal(token.dca_account, token.sender_account, token.token_mint, token.vault, derived) is None,
    ensures
        token.dca_account.record matches Some(before) ==> token_deposited(
            token,
            amount,
        ).dca_account.record->0.sender_account == before.sender_account && token_deposited(
            token,
            amount,
        ).dca_account.record->0.mint_address == before.mint_address,
        deposit_refusal(
            token_deposited(token, amount).dca_account,
            token.sender_account,
            token.token_mint,
            token.vault,
            derived,
        ) is None,
{
}

/// A deposit by another owner, or of another asset, into a slot that holds a
/// record is refused, whatever the vault and the derivation.
pub proof fn lemma_foreign_deposit_is_refused(
    slot: PositionSlot,
    owner: Identity,
    mint: Identity,
    vault: Identity,
    derived: Option<(Seq<u8>, u8)>,
)
    requires
        slot.record matches Some(record) && (record.sender_account != owner || record.mint_address != mint),
    ensures
        deposit_refusal(slot, owner, mint, vault, derived) is Some,
{
}

/// Depositing twice into the same position overwrites: the accounts are what
/// the second deposit alone would have left, and the amount on record is the
/// second amount.
pub proof fn lemma_second_deposit_overwrites(token: DepositToken, sol: DepositSol, first: u64, second: u64)
    ensures
        token_deposited(token_deposited(token, first), second) == token_deposited(token, second),
        token_deposited(token_deposited(token, first), second).dca_account.record->0.total_amount == second,
        sol_deposited(sol_deposited(sol, first), second) == sol_deposited(sol, second),
        sol_deposited(sol_deposited(sol, first), second).dca_account.record->0.total_amount == second,
{
}

/// A native deposit whose transfer the ledger refuses ends there: the wrap is
/// not asked for. After a completed transfer the wrap is the next request,
/// and after a completed wrap the deposit stands.
pub proof fn lemma_no_wrap_after_failed_transfer(sol: DepositSol, amount: u64, reply: LedgerReply)
    ensures
        reply != LedgerReply::Completed ==> progress_after(sol_deposit_requests(sol, amount), 0, reply)
            == Progress::Failed(reply.outcome()->Err_0),
        progress_after(sol_deposit_requests(sol, amount), 0, LedgerReply::Completed) == (Progress::Ask {
            position: 1,
            request: LedgerRequest::SyncNative { program: sol.token_program, account: sol.vault_wrap_ata },
        }),
        progress_after(sol_deposit_requests(sol, amount), 1, LedgerReply::Completed) == Progress::Done,
{
}

/// One swap converts at most one step and never more than the vault holds:
/// the amount in the request is no more than the step amount on record, no
/// more than the balance of the source and no more than what was asked for;
/// within both bounds it is what was asked for. The minimum output is in the
/// request as it was given.
pub proof fn lemma_swap_is_one_step(
    ctx: Context<SwapBaseIn>,
    derived: Option<(Seq<u8>, u8)>,
    source_balance: u64,
    amount_in: u64,
    minimum_amount_out: u64,
)
    ensures
        authorized_swap(ctx, derived, source_balance, amount_in, minimum_amount_out) matches Ok(request) ==> {
            &&& ctx.accounts.dca_account.record matches Some(record)
            &&& record.state
            &&& record.sender_account == ctx.accounts.sender_account
            &&& request.amount_in <= record.dca_amount
            &&& request.amount_in <= source_balance
            &&& request.amount_in <= amount_in
            &&& (amount_in <= record.dca_amount && amount_in <= source_balance ==> request.amount_in
                == amount_in)
            &&& request.minimum_amount_out == minimum_amount_out
            &&& request.authority == ctx.accounts.user_source_owner
        },
{
}

/// A swap whose derived authority is not the one supplied, or for which none
/// can be derived, fails with `AuthorityDerivationMismatch`, whatever the slot
/// holds and whatever is asked for.
pub proof fn lemma_mismatch_comes_first(
    ctx: Context<SwapBaseIn>,
    derived: Option<(Seq<u8>, u8)>,
    source_balance: u64,
    amount_in: u64,
    minimum_amount_out: u64,
)
    requires
        !(derived matches Some((address, _)) && address == ctx.accounts.user_source_owner@),
    ensures
        authorized_swap(ctx, derived, source_balance, amount_in, minimum_amount_out) == Err::<
            SwapRequest,
            DcaError,
        >(DcaError::AuthorityDerivationMismatch),
{
}

/// No swap is held back by the schedule's time or by the amount on record:
/// the decision is the same whatever start time, step interval and deposited
/// amount the record holds, so a second swap within the interval is decided
/// as the first.
pub proof fn lemma_swap_reads_no_time(
    ctx: Context<SwapBaseIn>,
    derived: Option<(Seq<u8>, u8)>,
    start_time: u64,
    dca_time: u64,
    total_amount: u64,
    source_balance: u64,
    amount_in: u64,
    minimum_amount_out: u64,
)
    requires
        ctx.accounts.dca_account.record is Some,
    ensures
        authorized_swap(
            Context {
                program_id: ctx.program_id,
                accounts: SwapBaseIn {
                    dca_account: PositionSlot {
                        key: ctx.accounts.dca_account.key,
                        record: Some(
                            DcaData { start_time, dca_time, total_amount, ..ctx.accounts.dca_account.record->0 },
                        ),
                    },
                    ..ctx.accounts
                },
            },
            derived,
            source_balance,
            amount_in,
            minimum_amount_out,
        ) == authorized_swap(ctx, derived, source_balance, amount_in, minimum_amount_out),
{
}

} // verus!
