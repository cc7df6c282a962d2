//! What the operations ask of their collaborators, and what comes back.
//!
//! The token ledger moves funds and the exchange converts them. Neither is
//! part of this library: an operation hands out requests, the caller has them
//! performed in order, and the reply to each decides how the operation ends.
//! An operation that ends in an error must leave nothing behind; the caller's
//! platform undoes what was staged.

use vstd::prelude::*;
use crate::authority::{seed_views, signer_seeds};
use crate::error::DcaError;
use crate::identity::Identity;

verus! {

/// A request to the token ledger.
#[derive(Clone, Copy, Debug, PartialEq, Eq, Hash)]
pub enum LedgerRequest {
    /// Move `amount` of a token from one holding to another, on the word of
    /// `authority`.
    TokenTransfer { program: Identity, from: Identity, to: Identity, authority: Identity, amount: u64 },
    /// Move `amount` of native currency from `from`, who signs, to `to`.
    NativeTransfer { program: Identity, from: Identity, to: Identity, amount: u64 },
    /// Make the native currency that `account` holds spendable as the wrapped
    /// token.
    SyncNative { program: Identity, account: Identity },
}

/// How the token ledger answered a request.
#[derive(Clone, Copy, Debug, PartialEq, Eq, Hash, Structural)]
pub enum LedgerReply {
    /// The request was carried out.
    Completed,
    /// The source holds less than the amount.
    InsufficientBalance,
    /// The ledger refused for another reason: a frozen account, a wrong asset.
    Rejected,
}

/// How the exchange answered a swap request.
#[derive(Clone, Copy, Debug, PartialEq, Eq, Hash, Structural)]
pub enum ExchangeReply {
    /// The swap was filled; the destination holds `destination_balance`
    /// after it.
    Filled { destination_balance: u64 },
    /// The exchange cannot give the minimum output or more.
    SlippageExceeded,
    /// The exchange refused for another reason: a bad route, a halted venue,
    /// too little liquidity.
    Rejected,
}

/// The route of a swap: the pool and the order-book venue paired with it.
#[derive(Clone, Copy, Debug, PartialEq, Eq, Hash)]
pub struct SwapRoute {
    pub amm: Identity,
    pub amm_authority: Identity,
    pub amm_open_orders: Identity,
    pub amm_target_orders: Identity,
    pub pool_coin_token_account: Identity,
    pub pool_pc_token_account: Identity,
    pub serum_program: Identity,
    pub serum_market: Identity,
    pub serum_bids: Identity,
    pub serum_asks: Identity,
    pub serum_event_queue: Identity,
    pub serum_coin_vault_account: Identity,
    pub serum_pc_vault_account: Identity,
    pub serum_vault_signer: Identity,
}

/// What shows that the vault authority stands behind a request: the inputs of
/// its derivation and the bump that makes it valid.
#[derive(Clone, Copy, Debug, PartialEq, Eq, Hash)]
pub struct DerivationProof {
    pub owner: Identity,
    pub position: Identity,
    pub bump: u8,
}

/// A swap request to the exchange, authorised by the vault authority.
#[derive(Clone, Copy, Debug, PartialEq, Eq, Hash)]
pub struct SwapRequest {
    /// The program that the request is addressed to.
    pub program_id: Identity,
    pub route: SwapRoute,
    /// The vault's holding that is spent.
    pub source: Identity,
    /// The vault's holding that receives the output.
    pub destination: Identity,
    /// The vault authority, in whose name the source is spent.
    pub authority: Identity,
    pub amount_in: u64,
    pub minimum_amount_out: u64,
    pub proof: DerivationProof,
}

/// Where an operation stands among its requests to the ledger.
#[derive(Clone, Copy, Debug, PartialEq, Eq, Hash)]
pub enum Progress {
    /// The request at `position` is to be carried out next.
    Ask { position: usize, request: LedgerRequest },
    /// Every request was carried out: the operation stands.
    Done,
    /// The ledger refused a request: the operation has failed, and no further
    /// request is made.
    Failed(DcaError),
}

/// Where an operation with these requests starts: at its first request, or
/// at its end where it has none.
pub open spec fn progress_at_start(requests: Seq<LedgerRequest>) -> Progress {
    if requests.len() > 0 {
        Progress::Ask { position: 0, request: requests[0] }
    } else {
        Progress::Done
    }
}

/// Where an operation stands once the ledger has answered the request at
/// `position`: failed on any reply but `Completed`; else at the next request,
/// or at its end after the last.
pub open spec fn progress_after(requests: Seq<LedgerRequest>, position: usize, reply: LedgerReply) -> Progress {
    match reply.spec_outcome() {
        Err(error) => Progress::Failed(error),
        Ok(_) => if position + 1 < requests.len() {
            Progress::Ask { position: (position + 1) as usize, request: requests[position + 1] }
        } else {
            Progress::Done
        },
    }
}

/// Starts an operation: gives its first request, if it has one.
pub fn start(requests: &Vec<LedgerRequest>) -> (progress: Progress)
    ensures
        progress == progress_at_start(requests@),
{
    if requests.len() > 0 {
        Progress::Ask { position: 0, request: requests[0] }
    } else {
        Progress::Done
    }
}

/// Goes on with an operation after the ledger has answered the request at
/// `position`. Requests are made one at a time and in order; the first
/// refusal ends the operation with the ledger's reason.
pub fn advance(requests: &Vec<LedgerRequest>, position: usize, reply: LedgerReply) -> (progress: Progress)
    ensures
        progress == progress_after(requests@, position, reply),
{
    match reply.outcome() {
        Err(error) => Progress::Failed(error),
        Ok(_) => if position < requests.len() && position + 1 < requests.len() {
            Progress::Ask { position: position + 1, request: requests[position + 1] }
        } else {
            Progress::Done
        },
    }
}

/// The code with which the token program and the system program refuse a
/// transfer for want of funds.
pub const INSUFFICIENT_FUNDS_CODE: u32 = 1;

/// The code with which the exchange refuses a swap that it cannot fill at the
/// minimum output.
pub const EXCEEDED_SLIPPAGE_CODE: u32 = 30;

/// The ledger's reply for the result of a call to it. A failure comes with
/// the code of the program that failed, where it gave one of its own.
pub open spec fn spec_ledger_reply(result: Result<(), Option<u32>>) -> LedgerReply {
    match result {
        Ok(_) => LedgerReply::Completed,
        Err(code) => if code == Some(INSUFFICIENT_FUNDS_CODE) {
            LedgerReply::InsufficientBalance
        } else {
            LedgerReply::Rejected
        },
    }
}

/// The exchange's reply for the result of a call to it: on success the
/// balance of the destination after the swap, on failure the code of the
/// program that failed, where it gave one of its own.
pub open spec fn spec_exchange_reply(result: Result<u64, Option<u32>>) -> ExchangeReply {
    match result {
        Ok(destination_balance) => ExchangeReply::Filled { destination_balance },
        Err(code) => if code == Some(EXCEEDED_SLIPPAGE_CODE) {
            ExchangeReply::SlippageExceeded
        } else {
            ExchangeReply::Rejected
        },
    }
}

/// Tells what the ledger replied from the result of a call to it: a failure
/// with the code for want of funds is `InsufficientBalance`, any other
/// failure is `Rejected`.
#[verifier::when_used_as_spec(spec_ledger_reply)]
pub fn ledger_reply(result: Result<(), Option<u32>>) -> (reply: LedgerReply)
    ensures
        reply == spec_ledger_reply(result),
{
    match result {
        Ok(_) => LedgerReply::Completed,
        Err(Some(code)) => if code == INSUFFICIENT_FUNDS_CODE {
            LedgerReply::InsufficientBalance
        } else {
            LedgerReply::Rejected
        },
        Err(None) => LedgerReply::Rejected,
    }
}

/// Tells what the exchange replied from the result of a call to it: a
/// failure with the code for slippage is `SlippageExceeded`, any other
/// failure is `Rejected`.
#[verifier::when_used_as_spec(spec_exchange_reply)]
pub fn exchange_reply(result: Result<u64, Option<u32>>) -> (reply: ExchangeReply)
    ensures
        reply == spec_exchange_reply(result),
{
    match result {
        Ok(destination_balance) => ExchangeReply::Filled { destination_balance },
        Err(Some(code)) => if code == EXCEEDED_SLIPPAGE_CODE {
            ExchangeReply::SlippageExceeded
        } else {
            ExchangeReply::Rejected
        },
        Err(None) => ExchangeReply::Rejected,
    }
}

impl LedgerReply {
    /// How an operation ends on this reply.
    pub open spec fn spec_outcome(self) -> Result<(), DcaError> {
        match self {
            LedgerReply::Completed => Ok(()),
            LedgerReply::InsufficientBalance => Err(DcaError::InsufficientBalance),
            LedgerReply::Rejected => Err(DcaError::LedgerTransferRejected),
        }
    }

    /// How an operation ends on this reply: it goes on after a completed
    /// request and fails with the ledger's reason after any other.
    #[verifier::when_used_as_spec(spec_outcome)]
    pub fn outcome(self) -> (r: Result<(), DcaError>)
        ensures
            r == self.spec_outcome(),
    {
        match self {
            LedgerReply::Completed => Ok(()),
            LedgerReply::InsufficientBalance => Err(DcaError::InsufficientBalance),
            LedgerReply::Rejected => Err(DcaError::LedgerTransferRejected),
        }
    }
}

impl ExchangeReply {
    /// How a swap ends on this reply.
    pub open spec fn spec_outcome(self) -> Result<u64, DcaError> {
        match self {
            ExchangeReply::Filled { destination_balance } => Ok(destination_balance),
            ExchangeReply::SlippageExceeded => Err(DcaError::SlippageExceeded),
            ExchangeReply::Rejected => Err(DcaError::ExchangeCallRejected),
        }
    }

    /// How a swap ends on this reply: the balance that the exchange reports
    /// for the destination is handed on as it is, and a refusal becomes the
    /// matching error. The minimum output is
    /// the exchange's to enforce; it is not compared again here.
    #[verifier::when_used_as_spec(spec_outcome)]
    pub fn outcome(self) -> (r: Result<u64, DcaError>)
        ensures
            r == self.spec_outcome(),
    {
        match self {
            ExchangeReply::Filled { destination_balance } => Ok(destination_balance),
            ExchangeReply::SlippageExceeded => Err(DcaError::SlippageExceeded),
            ExchangeReply::Rejected => Err(DcaError::ExchangeCallRejected),
        }
    }
}

impl DerivationProof {
    /// The seeds to present with a request: owner, position, bump.
    pub fn seeds(&self) -> (seeds: Vec<Vec<u8>>)
        ensures
            seed_views(seeds@) == signer_seeds(self.owner@, self.position@, self.bump),
    {
        let mut last: Vec<u8> = Vec::new();
        last.push(self.bump);
        let mut seeds: Vec<Vec<u8>> = Vec::new();
        seeds.push(self.owner.to_vec());
        seeds.push(self.position.to_vec());
        seeds.push(last);
        assert(seed_views(seeds@) =~= signer_seeds(self.owner@, self.position@, self.bump));
        seeds
    }
}

/// A swap ends with `SlippageExceeded` exactly where the exchange says that
/// it cannot give the minimum output, and ends well exactly where the
/// exchange filled it; a deposit stands exactly where the ledger completed
/// the request, and fails with `InsufficientBalance` exactly where the ledger
/// found the source short.
pub proof fn lemma_replies_decide(ledger: LedgerReply, exchange: ExchangeReply)
    ensures
        exchange.outcome() == Err::<u64, DcaError>(DcaError::SlippageExceeded) <==> exchange
            == ExchangeReply::SlippageExceeded,
        exchange.outcome() == Err::<u64, DcaError>(DcaError::ExchangeCallRejected) <==> exchange
            == ExchangeReply::Rejected,
        exchange.outcome() matches Ok(balance) ==> exchange == (ExchangeReply::Filled { destination_balance: balance }),
        exchange.outcome() is Ok <==> exchange is Filled,
        ledger.outcome() is Ok <==> ledger == LedgerReply::Completed,
        ledger.outcome() == Err::<(), DcaError>(DcaError::InsufficientBalance) <==> ledger
            == LedgerReply::InsufficientBalance,
        ledger.outcome() == Err::<(), DcaError>(DcaError::LedgerTransferRejected) <==> ledger
            == LedgerReply::Rejected,
{
}

} // verus!
