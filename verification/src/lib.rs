//! Custody and scheduling rules of a dollar-cost-averaging position.
//!
//! A position is a record in a slot, a vault whose spending authority is
//! derived from the owner and the position, and three operations: deposit,
//! schedule activation and the scheduled swap. The operations decide what the
//! record becomes and what is asked of the token ledger and of the exchange;
//! performing those requests is left to the caller, who reports each reply
//! and is told what comes next.

pub mod accounts;
pub mod authority;
pub mod error;
pub mod identity;
pub mod instructions;
pub mod layout;
pub mod ledger;
pub mod record;

pub use accounts::{Context, DepositSol, DepositToken, InitializeDca, SwapBaseIn};
pub use authority::{derive_vault_authority, VaultAuthority};
pub use error::DcaError;
pub use identity::Identity;
pub use instructions::{
    authorize_swap, deposit_sol, deposit_sol_with_authority, deposit_token,
    deposit_token_with_authority, initialize_dca, swap_from_sol,
};
pub use ledger::{
    DerivationProof, ExchangeReply, LedgerReply, LedgerRequest, Progress, SwapRequest, SwapRoute,
};
pub use record::{DcaData, Direction, PositionSlot, Stage};
