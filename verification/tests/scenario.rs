use dca_anchor::ledger::{advance, start};
use dca_anchor::{
    deposit_token, initialize_dca, swap_from_sol, Context, DcaData, DcaError, DepositToken,
    Direction, ExchangeReply, Identity, InitializeDca, LedgerReply, LedgerRequest, PositionSlot,
    Progress, SwapBaseIn,
};

fn id(byte: u8) -> Identity {
    Identity::new([byte; 32])
}

const OWNER: u8 = 1;
const POSITION: u8 = 2;
const PROGRAM: u8 = 3;
const TOKEN: u8 = 5;
const OWNER_HOLDING: u8 = 8;
const VAULT_TOKEN: u8 = 9;
const VAULT_NATIVE: u8 = 10;

fn vault() -> Identity {
    Identity::new([
        60, 212, 244, 139, 247, 39, 12, 67, 51, 170, 236, 255, 252, 37, 223, 49, 60, 103, 163, 39,
        200, 154, 141, 16, 172, 210, 214, 52, 213, 118, 108, 247,
    ])
}

fn swap_accounts(slot: PositionSlot) -> Context<SwapBaseIn> {
    Context {
        program_id: id(PROGRAM),
        accounts: SwapBaseIn {
            amm: id(20),
            amm_authority: id(21),
            amm_open_orders: id(22),
            amm_target_orders: id(23),
            pool_coin_token_account: id(24),
            pool_pc_token_account: id(25),
            serum_program: id(26),
            serum_market: id(27),
            serum_bids: id(28),
            serum_asks: id(29),
            serum_event_queue: id(30),
            serum_coin_vault_account: id(31),
            serum_pc_vault_account: id(32),
            serum_vault_signer: id(33),
            user_source_token_account: id(VAULT_TOKEN),
            user_destination_token_account: id(VAULT_NATIVE),
            user_source_owner: vault(),
            spl_token_program: id(4),
            dca_account: slot,
            sender_account: id(OWNER),
            system_program: id(7),
        },
    }
}

#[test]
fn deposit_schedule_swap() {
    let mut deposit = Context {
        program_id: id(PROGRAM),
        accounts: DepositToken {
            sender_account: id(OWNER),
            dca_account: PositionSlot::vacant(id(POSITION)),
            vault: vault(),
            token_program: id(4),
            token_mint: id(TOKEN),
            token_mint_wrap: id(6),
            system_program: id(7),
            sender_ata: id(OWNER_HOLDING),
            vault_token_ata: id(VAULT_TOKEN),
            vault_wrap_ata: id(VAULT_NATIVE),
            associated_token_program: id(11),
        },
    };
    let requests = deposit_token(&mut deposit, 1000).unwrap();
    assert_eq!(
        requests,
        vec![LedgerRequest::TokenTransfer {
            program: id(4),
            from: id(OWNER_HOLDING),
            to: id(VAULT_TOKEN),
            authority: id(OWNER),
            amount: 1000,
        }]
    );
    assert_eq!(
        start(&requests),
        Progress::Ask { position: 0, request: requests[0] }
    );
    assert_eq!(advance(&requests, 0, LedgerReply::Completed), Progress::Done);
    let record = deposit.accounts.dca_account.record.unwrap();
    assert_eq!(record.total_amount, 1000);
    assert_eq!(record.sender_account, id(OWNER));
    assert_eq!(record.mint_address, id(TOKEN));
    assert_eq!(record.direction(), Some(Direction::TokenToNative));
    assert!(!record.state);

    let mut schedule = Context {
        program_id: id(PROGRAM),
        accounts: InitializeDca { dca_account: deposit.accounts.dca_account },
    };
    assert_eq!(initialize_dca(&mut schedule, 1000, 100, 86400), Ok(()));
    let scheduled = schedule.accounts.dca_account.record.unwrap();
    assert_eq!(
        scheduled,
        DcaData {
            total_amount: 1000,
            sender_account: id(OWNER),
            mint_address: id(TOKEN),
            start_time: 1000,
            dca_amount: 100,
            dca_time: 86400,
            flag: 2,
            state: true,
            minimum_amount_out: 0,
        }
    );

    let swap = swap_accounts(schedule.accounts.dca_account);
    let request = swap_from_sol(&swap, 1000, 100, 95).unwrap();
    assert_eq!(request.source, id(VAULT_TOKEN));
    assert_eq!(request.destination, id(VAULT_NATIVE));
    assert_eq!(request.authority, vault());
    assert_eq!(request.amount_in, 100);
    assert_eq!(request.minimum_amount_out, 95);
    assert_eq!(request.proof.seeds(), vec![vec![OWNER; 32], vec![POSITION; 32], vec![254]]);
    assert_eq!(ExchangeReply::Filled { destination_balance: 100 }.outcome(), Ok(100));
    assert_eq!(swap.accounts.dca_account.record, Some(scheduled));
}

#[test]
fn swap_above_the_best_output_is_refused_by_the_exchange() {
    let record = DcaData {
        total_amount: 1000,
        sender_account: id(OWNER),
        mint_address: id(TOKEN),
        start_time: 1000,
        dca_amount: 100,
        dca_time: 86400,
        flag: 2,
        state: true,
        minimum_amount_out: 0,
    };
    let swap = swap_accounts(PositionSlot { key: id(POSITION), record: Some(record) });
    let before = swap;
    let request = swap_from_sol(&swap, 1000, 100, 101).unwrap();
    assert_eq!(request.minimum_amount_out, 101);
    assert_eq!(ExchangeReply::SlippageExceeded.outcome(), Err(DcaError::SlippageExceeded));
    assert_eq!(swap, before);
}
