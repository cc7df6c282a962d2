//! The record of a position and the slot that holds it.

use vstd::prelude::*;
use crate::identity::Identity;

verus! {

/// Value of `flag` after a deposit of native currency.
pub const FLAG_SOL_TO_MINT: u8 = 1;

/// Value of `flag` after a deposit of a token.
pub const FLAG_MINT_TO_SOL: u8 = 2;

/// Which way a position converts.
#[derive(Clone, Copy, Debug, PartialEq, Eq, Hash, Structural)]
pub enum Direction {
    /// Native currency was deposited and is converted into the token.
    NativeToToken,
    /// A token was deposited and is converted into native currency.
    TokenToNative,
}

/// Where a position stands in its life.
#[derive(Clone, Copy, Debug, PartialEq, Eq, Hash, Structural)]
pub enum Stage {
    /// The slot holds no record.
    Vacant,
    /// Funds were deposited; the schedule is not active.
    Funded,
    /// The schedule is active.
    Scheduled,
}

/// The record of one position.
#[derive(Clone, Copy, Debug, PartialEq, Eq, Hash)]
pub struct DcaData {
    /// Amount of the last deposit.
    pub total_amount: u64,
    /// The owner: the identity that made the first deposit.
    pub sender_account: Identity,
    /// The asset of the position, as the deposit named it: the token that a
    /// token deposit brought in, or that a native deposit is converted into.
    pub mint_address: Identity,
    /// Start of the schedule, in seconds of unix time.
    pub start_time: u64,
    /// Amount to convert at each step.
    pub dca_amount: u64,
    /// Seconds between two steps.
    pub dca_time: u64,
    /// Direction of the conversion: `FLAG_SOL_TO_MINT` or `FLAG_MINT_TO_SOL`.
    pub flag: u8,
    /// Whether the schedule is active.
    pub state: bool,
    /// Least output accepted from the next conversion.
    pub minimum_amount_out: u64,
}

/// The slot of a position: its identity, and its record once there is one.
#[derive(Clone, Copy, Debug, PartialEq, Eq, Hash)]
pub struct PositionSlot {
    pub key: Identity,
    pub record: Option<DcaData>,
}

/// The identity whose bytes are all zero.
pub open spec fn zero_identity() -> Identity {
    Identity { bytes: vstd::array::spec_array_fill_for_copy_type(0u8) }
}

/// The record that a newly created slot holds before anything is written.
pub open spec fn blank_record() -> DcaData {
    DcaData {
        total_amount: 0,
        sender_account: zero_identity(),
        mint_address: zero_identity(),
        start_time: 0,
        dca_amount: 0,
        dca_time: 0,
        flag: 0,
        state: false,
        minimum_amount_out: 0,
    }
}

impl Default for DcaData {
    fn default() -> (record: DcaData)
        ensures
            record == blank_record(),
    {
        DcaData {
            total_amount: 0,
            sender_account: Identity::new([0u8; 32]),
            mint_address: Identity::new([0u8; 32]),
            start_time: 0,
            dca_amount: 0,
            dca_time: 0,
            flag: 0,
            state: false,
            minimum_amount_out: 0,
        }
    }
}

impl DcaData {
    /// This record after a deposit of `amount` of `mint` by `owner`: amount,
    /// owner, asset and direction are written and the schedule is switched
    /// off. The step fields and the minimum output stay. The operations write
    /// a deposit only over a record of the same owner and asset.
    pub open spec fn deposited(self, owner: Identity, mint: Identity, flag: u8, amount: u64) -> DcaData {
        DcaData {
            total_amount: amount,
            sender_account: owner,
            mint_address: mint,
            flag,
            state: false,
            ..self
        }
    }

    /// This record after the schedule was set: the three step fields are
    /// overwritten and the schedule is active. The rest stays.
    pub open spec fn scheduled(self, start_time: u64, dca_amount: u64, dca_time: u64) -> DcaData {
        DcaData { start_time, dca_amount, dca_time, state: true, ..self }
    }

    /// The direction that `flag` stands for, if it stands for one.
    pub open spec fn spec_direction(&self) -> Option<Direction> {
        if self.flag == FLAG_SOL_TO_MINT {
            Some(Direction::NativeToToken)
        } else if self.flag == FLAG_MINT_TO_SOL {
            Some(Direction::TokenToNative)
        } else {
            None
        }
    }

    /// The direction of the conversion; `None` where `flag` is neither of the
    /// two values that a deposit writes.
    #[verifier::when_used_as_spec(spec_direction)]
    pub fn direction(&self) -> (d: Option<Direction>)
        ensures
            d == self.spec_direction(),
    {
        if self.flag == FLAG_SOL_TO_MINT {
            Some(Direction::NativeToToken)
        } else if self.flag == FLAG_MINT_TO_SOL {
            Some(Direction::TokenToNative)
        } else {
            None
        }
    }

    /// Whether nothing was ever written into this record.
    pub fn is_blank(&self) -> (r: bool)
        ensures
            r == (*self == blank_record()),
    {
        let zero = Identity::new([0u8; 32]);
        self.total_amount == 0 && self.sender_account.same(&zero) && self.mint_address.same(&zero)
            && self.start_time == 0 && self.dca_amount == 0 && self.dca_time == 0 && self.flag == 0
            && !self.state && self.minimum_amount_out == 0
    }

    /// Writes a deposit into the record.
    pub fn record_deposit(&mut self, owner: Identity, mint: Identity, flag: u8, amount: u64)
        ensures
            *final(self) == old(self).deposited(owner, mint, flag, amount),
    {
        self.total_amount = amount;
        self.sender_account = owner;
        self.mint_address = mint;
        self.flag = flag;
        self.state = false;
    }

    /// Writes the schedule into the record and activates it.
    pub fn record_schedule(&mut self, start_time: u64, dca_amount: u64, dca_time: u64)
        ensures
            *final(self) == old(self).scheduled(start_time, dca_amount, dca_time),
    {
        self.start_time = start_time;
        self.dca_amount = dca_amount;
        self.dca_time = dca_time;
        self.state = true;
    }
}

impl PositionSlot {
    /// A slot without a record.
    pub fn vacant(key: Identity) -> (slot: PositionSlot)
        ensures
            slot == (PositionSlot { key, record: None }),
    {
        PositionSlot { key, record: None }
    }

    /// The slot that stored data stands for. Storage that was created and
    /// never written holds the blank record, which stands for no record.
    pub fn from_stored(key: Identity, stored: DcaData) -> (slot: PositionSlot)
        ensures
            slot.key == key,
            slot.record == if stored == blank_record() {
                None
            } else {
                Some(stored)
            },
    {
        if stored.is_blank() {
            PositionSlot { key, record: None }
        } else {
            PositionSlot { key, record: Some(stored) }
        }
    }

    /// Where the position stands.
    pub open spec fn spec_stage(&self) -> Stage {
        match self.record {
            None => Stage::Vacant,
            Some(record) => if record.state {
                Stage::Scheduled
            } else {
                Stage::Funded
            },
        }
    }

    /// Where the position stands.
    #[verifier::when_used_as_spec(spec_stage)]
    pub fn stage(&self) -> (stage: Stage)
        ensures
            stage == self.spec_stage(),
    {
        match self.record {
            None => Stage::Vacant,
            Some(record) => if record.state {
                Stage::Scheduled
            } else {
                Stage::Funded
            },
        }
    }

    /// The record that a deposit starts from: the one in the slot, or a blank
    /// one where the slot is vacant.
    pub open spec fn record_or_blank(self) -> DcaData {
        match self.record {
            Some(record) => record,
            None => blank_record(),
        }
    }
}

/// A second deposit overwrites the first: the record is what the second
/// deposit alone would have made of it, and its amount is the second amount,
/// not the sum.
pub proof fn lemma_deposit_overwrites(
    record: DcaData,
    owner1: Identity,
    mint1: Identity,
    flag1: u8,
    amount1: u64,
    owner2: Identity,
    mint2: Identity,
    flag2: u8,
    amount2: u64,
)
    ensures
        record.deposited(owner1, mint1, flag1, amount1).deposited(owner2, mint2, flag2, amount2)
            == record.deposited(owner2, mint2, flag2, amount2),
        record.deposited(owner1, mint1, flag1, amount1).deposited(owner2, mint2, flag2, amount2).total_amount
            == amount2,
{
}

/// Setting the schedule again overwrites the three step fields and leaves the
/// schedule active.
pub proof fn lemma_schedule_overwrites(
    record: DcaData,
    start_time1: u64,
    dca_amount1: u64,
    dca_time1: u64,
    start_time2: u64,
    dca_amount2: u64,
    dca_time2: u64,
)
    ensures
        record.scheduled(start_time1, dca_amount1, dca_time1).scheduled(start_time2, dca_amount2, dca_time2)
            == record.scheduled(start_time2, dca_amount2, dca_time2),
        record.scheduled(start_time1, dca_amount1, dca_time1).scheduled(start_time2, dca_amount2, dca_time2).state,
{
}

/// Setting the schedule leaves the deposit as it was: amount, owner, asset,
/// direction and minimum output are those that the record held before.
pub proof fn lemma_schedule_keeps_deposit(record: DcaData, start_time: u64, dca_amount: u64, dca_time: u64)
    ensures
        record.scheduled(start_time, dca_amount, dca_time).total_amount == record.total_amount,
        record.scheduled(start_time, dca_amount, dca_time).sender_account == record.sender_account,
        record.scheduled(start_time, dca_amount, dca_time).mint_address == record.mint_address,
        record.scheduled(start_time, dca_amount, dca_time).flag == record.flag,
        record.scheduled(start_time, dca_amount, dca_time).minimum_amount_out == record.minimum_amount_out,
{
}

/// The life of a position. A deposit leads to `Funded` from every stage,
/// also from `Scheduled`: the schedule is off until it is set again. Setting
/// the schedule leads from `Funded` and from `Scheduled` to `Scheduled`.
pub proof fn lemma_stages(
    slot: PositionSlot,
    owner: Identity,
    mint: Identity,
    flag: u8,
    amount: u64,
    start_time: u64,
    dca_amount: u64,
    dca_time: u64,
)
    ensures
        (PositionSlot {
            key: slot.key,
            record: Some(slot.record_or_blank().deposited(owner, mint, flag, amount)),
        }).stage() == Stage::Funded,
        slot.record matches Some(record) ==> (PositionSlot {
            key: slot.key,
            record: Some(record.scheduled(start_time, dca_amount, dca_time)),
        }).stage() == Stage::Scheduled,
        slot.record is None <==> slot.stage() == Stage::Vacant,
{
}

} // verus!
