use dca_anchor::ledger::{exchange_reply, ledger_reply};
use dca_anchor::{
    authorize_swap, derive_vault_authority, swap_from_sol, Context, DcaData, DcaError,
    DerivationProof, ExchangeReply, Identity, LedgerReply, PositionSlot, SwapBaseIn, SwapRequest, SwapRoute,
    VaultAuthority,
};

fn id(byte: u8) -> Identity {
    Identity::new([byte; 32])
}

fn active_record() -> DcaData {
    DcaData {
        total_amount: 1000,
        sender_account: id(1),
        mint_address: id(5),
        start_time: 1000,
        dca_amount: 100,
        dca_time: 86400,
        flag: 2,
        state: true,
        minimum_amount_out: 0,
    }
}

fn accounts(authority: Identity, record: Option<DcaData>) -> Context<SwapBaseIn> {
    Context {
        program_id: id(3),
        accounts: SwapBaseIn {
            amm: id(20),
            amm_authority: id(21),
            amm_open_orders: id(22),
            amm_target_orders: id(23),
            pool_coin_token_account: id(24),
            pool_pc_token_account: id(25),
            serum_program: id(26),
            serum_market: id(27),
            serum_bids: id(28),
            serum_asks: id(29),
            serum_event_queue: id(30),
            serum_coin_vault_account: id(31),
            serum_pc_vault_account: id(32),
            serum_vault_signer: id(33),
            user_source_token_account: id(34),
            user_destination_token_account: id(35),
            user_source_owner: authority,
            spl_token_program: id(36),
            dca_account: PositionSlot { key: id(2), record },
            sender_account: id(1),
            system_program: id(37),
        },
    }
}

fn vault() -> Identity {
    Identity::new([
        60, 212, 244, 139, 247, 39, 12, 67, 51, 170, 236, 255, 252, 37, 223, 49, 60, 103, 163, 39,
        200, 154, 141, 16, 172, 210, 214, 52, 213, 118, 108, 247,
    ])
}

fn expected_request(amount_in: u64, minimum_amount_out: u64) -> SwapRequest {
    SwapRequest {
        program_id: id(3),
        route: SwapRoute {
            amm: id(20),
            amm_authority: id(21),
            amm_open_orders: id(22),
            amm_target_orders: id(23),
            pool_coin_token_account: id(24),
            pool_pc_token_account: id(25),
            serum_program: id(26),
            serum_market: id(27),
            serum_bids: id(28),
            serum_asks: id(29),
            serum_event_queue: id(30),
            serum_coin_vault_account: id(31),
            serum_pc_vault_account: id(32),
            serum_vault_signer: id(33),
        },
        source: id(34),
        destination: id(35),
        authority: vault(),
        amount_in,
        minimum_amount_out,
        proof: DerivationProof { owner: id(1), position: id(2), bump: 254 },
    }
}

#[test]
fn swap_builds_the_request() {
    let ctx = accounts(vault(), Some(active_record()));
    assert_eq!(swap_from_sol(&ctx, 1000, 100, 95), Ok(expected_request(100, 95)));
}

#[test]
fn swap_authority_is_the_derived_one() {
    let derived = derive_vault_authority(&id(1), &id(2), &id(3)).unwrap();
    let ctx = accounts(derived.address, Some(active_record()));
    let request = swap_from_sol(&ctx, 1000, 1, 1).unwrap();
    assert_eq!(request.authority, derived.address);
    assert_eq!(request.proof.bump, derived.bump);
    assert_eq!(request.proof.seeds(), vec![vec![1u8; 32], vec![2u8; 32], vec![derived.bump]]);
}

#[test]
fn swap_with_another_authority_fails() {
    let ctx = accounts(id(50), Some(active_record()));
    assert_eq!(swap_from_sol(&ctx, 1000, 100, 95), Err(DcaError::AuthorityDerivationMismatch));
    let mut nearly = vault().to_bytes();
    nearly[31] ^= 1;
    let ctx = accounts(Identity::new(nearly), Some(active_record()));
    assert_eq!(swap_from_sol(&ctx, 1000, 100, 95), Err(DcaError::AuthorityDerivationMismatch));
}

#[test]
fn swap_with_the_authority_of_another_position_fails() {
    let other = derive_vault_authority(&id(1), &id(9), &id(3)).unwrap();
    let ctx = accounts(other.address, Some(active_record()));
    assert_eq!(swap_from_sol(&ctx, 1000, 100, 95), Err(DcaError::AuthorityDerivationMismatch));
    let other = derive_vault_authority(&id(1), &id(2), &id(9)).unwrap();
    let ctx = accounts(other.address, Some(active_record()));
    assert_eq!(swap_from_sol(&ctx, 1000, 100, 95), Err(DcaError::AuthorityDerivationMismatch));
}

#[test]
fn swap_twice_within_the_interval_succeeds_twice() {
    let ctx = accounts(vault(), Some(active_record()));
    let before = ctx;
    let first = swap_from_sol(&ctx, 1000, 100, 95);
    let second = swap_from_sol(&ctx, 1000, 100, 95);
    assert_eq!(first, Ok(expected_request(100, 95)));
    assert_eq!(second, first);
    assert_eq!(ctx, before);
}

#[test]
fn swap_needs_an_active_record() {
    let mut inactive = active_record();
    inactive.state = false;
    let ctx = accounts(vault(), Some(inactive));
    assert_eq!(swap_from_sol(&ctx, 1000, 100, 95), Err(DcaError::RecordNotFound));
    let ctx = accounts(vault(), None);
    assert_eq!(swap_from_sol(&ctx, 1000, 100, 95), Err(DcaError::RecordNotFound));
}

#[test]
fn swap_by_another_than_the_owner_on_record_fails() {
    let mut foreign = active_record();
    foreign.sender_account = id(40);
    let ctx = accounts(vault(), Some(foreign));
    assert_eq!(swap_from_sol(&ctx, 1000, 100, 95), Err(DcaError::AuthorityDerivationMismatch));
}

#[test]
fn swap_reads_neither_start_nor_interval() {
    let mut record = active_record();
    record.start_time = u64::MAX;
    record.dca_time = 0;
    let ctx = accounts(vault(), Some(record));
    assert_eq!(swap_from_sol(&ctx, 1000, 100, 95), Ok(expected_request(100, 95)));
}

#[test]
fn swap_is_cut_down_to_one_step() {
    let ctx = accounts(vault(), Some(active_record()));
    assert_eq!(swap_from_sol(&ctx, 1000, 101, 95), Ok(expected_request(100, 95)));
    assert_eq!(swap_from_sol(&ctx, 1000, 5000, 95), Ok(expected_request(100, 95)));
    assert_eq!(swap_from_sol(&ctx, 1000, u64::MAX, 95), Ok(expected_request(100, 95)));
    assert_eq!(swap_from_sol(&ctx, 1000, 100, 95), Ok(expected_request(100, 95)));
    assert_eq!(swap_from_sol(&ctx, 1000, 99, 95), Ok(expected_request(99, 95)));
    assert_eq!(swap_from_sol(&ctx, 1000, 0, 0), Ok(expected_request(0, 0)));
    let mut unset = active_record();
    unset.dca_amount = 0;
    let ctx = accounts(vault(), Some(unset));
    assert_eq!(swap_from_sol(&ctx, 1000, 7, 1), Ok(expected_request(0, 1)));
}

#[test]
fn swap_is_cut_down_to_the_balance_of_the_source() {
    let ctx = accounts(vault(), Some(active_record()));
    assert_eq!(swap_from_sol(&ctx, 40, 100, 95), Ok(expected_request(40, 95)));
    assert_eq!(swap_from_sol(&ctx, 40, 39, 95), Ok(expected_request(39, 95)));
    assert_eq!(swap_from_sol(&ctx, 0, 100, 95), Ok(expected_request(0, 95)));
    assert_eq!(swap_from_sol(&ctx, 100, 100, 95), Ok(expected_request(100, 95)));
    assert_eq!(swap_from_sol(&ctx, u64::MAX, 100, 95), Ok(expected_request(100, 95)));
}

#[test]
fn swap_is_not_cut_down_to_the_amount_on_record() {
    let mut record = active_record();
    record.total_amount = 400;
    record.dca_amount = 500;
    let ctx = accounts(vault(), Some(record));
    assert_eq!(swap_from_sol(&ctx, 1400, 500, 95), Ok(expected_request(500, 95)));
    record.total_amount = 1000;
    record.dca_amount = 1000;
    let ctx = accounts(vault(), Some(record));
    assert_eq!(swap_from_sol(&ctx, 900, 1000, 95), Ok(expected_request(900, 95)));
}

#[test]
fn mismatched_authority_fails_whatever_the_slot_holds() {
    let mut inactive = active_record();
    inactive.state = false;
    for record in [None, Some(inactive), Some(active_record())] {
        let ctx = accounts(id(50), record);
        assert_eq!(
            swap_from_sol(&ctx, 1000, 100, 95),
            Err(DcaError::AuthorityDerivationMismatch)
        );
        assert_eq!(
            authorize_swap(&ctx, None, 1000, 100, 95),
            Err(DcaError::AuthorityDerivationMismatch)
        );
        let other = Some(VaultAuthority { address: id(51), bump: 255 });
        assert_eq!(
            authorize_swap(&ctx, other, 1000, 100, 95),
            Err(DcaError::AuthorityDerivationMismatch)
        );
    }
}

#[test]
fn swap_passes_the_minimum_on() {
    let ctx = accounts(vault(), Some(active_record()));
    let request = swap_from_sol(&ctx, 1000, 50, u64::MAX).unwrap();
    assert_eq!(request.amount_in, 50);
    assert_eq!(request.minimum_amount_out, u64::MAX);
    let request = swap_from_sol(&ctx, 1000, 5000, 1).unwrap();
    assert_eq!((request.amount_in, request.minimum_amount_out), (100, 1));
}

#[test]
fn exchange_replies_end_the_swap() {
    assert_eq!(ExchangeReply::Filled { destination_balance: 97 }.outcome(), Ok(97));
    assert_eq!(ExchangeReply::Filled { destination_balance: 0 }.outcome(), Ok(0));
    assert_eq!(ExchangeReply::SlippageExceeded.outcome(), Err(DcaError::SlippageExceeded));
    assert_eq!(ExchangeReply::Rejected.outcome(), Err(DcaError::ExchangeCallRejected));
}

#[test]
fn authorize_swap_takes_the_bump_of_the_derivation() {
    let ctx = accounts(id(60), Some(active_record()));
    let derived = Some(VaultAuthority { address: id(60), bump: 9 });
    let mut expected = expected_request(100, 95);
    expected.authority = id(60);
    expected.proof.bump = 9;
    assert_eq!(authorize_swap(&ctx, derived, 1000, 100, 95), Ok(expected));
}

#[test]
fn authorize_swap_without_a_derivation_fails() {
    let ctx = accounts(vault(), Some(active_record()));
    assert_eq!(authorize_swap(&ctx, None, 1000, 100, 95), Err(DcaError::AuthorityDerivationMismatch));
    let ctx = accounts(vault(), None);
    assert_eq!(
        authorize_swap(&ctx, None, 1000, 100, 95),
        Err(DcaError::AuthorityDerivationMismatch)
    );
    let derived = Some(VaultAuthority { address: vault(), bump: 254 });
    assert_eq!(authorize_swap(&ctx, derived, 1000, 100, 95), Err(DcaError::RecordNotFound));
}

#[test]
fn authorize_swap_with_another_address_fails() {
    let ctx = accounts(vault(), Some(active_record()));
    let derived = Some(VaultAuthority { address: id(60), bump: 254 });
    assert_eq!(authorize_swap(&ctx, derived, 1000, 100, 95), Err(DcaError::AuthorityDerivationMismatch));
    let derived = Some(VaultAuthority { address: vault(), bump: 254 });
    assert_eq!(authorize_swap(&ctx, derived, 1000, 100, 95), Ok(expected_request(100, 95)));
}

#[test]
fn exchange_results_are_told_apart_by_their_code() {
    assert_eq!(exchange_reply(Ok(97)), ExchangeReply::Filled { destination_balance: 97 });
    assert_eq!(exchange_reply(Err(Some(30))), ExchangeReply::SlippageExceeded);
    assert_eq!(exchange_reply(Err(Some(29))), ExchangeReply::Rejected);
    assert_eq!(exchange_reply(Err(Some(1))), ExchangeReply::Rejected);
    assert_eq!(exchange_reply(Err(None)), ExchangeReply::Rejected);
    assert_eq!(exchange_reply(Err(Some(30))).outcome(), Err(DcaError::SlippageExceeded));
}

#[test]
fn ledger_results_are_told_apart_by_their_code() {
    assert_eq!(ledger_reply(Ok(())), LedgerReply::Completed);
    assert_eq!(ledger_reply(Err(Some(1))), LedgerReply::InsufficientBalance);
    assert_eq!(ledger_reply(Err(Some(0))), LedgerReply::Rejected);
    assert_eq!(ledger_reply(Err(Some(30))), LedgerReply::Rejected);
    assert_eq!(ledger_reply(Err(None)), LedgerReply::Rejected);
    assert_eq!(ledger_reply(Err(Some(1))).outcome(), Err(DcaError::InsufficientBalance));
}
