//! A sale's ledger, its abstract state and the transitions of the escrow:
//! payments, seller funding, buyer withdrawals, collections and their reversal.

use crate::arith::{checked_proportional, compute_fee, fee_spec, proportional_spec, BASIS_POINT};
use crate::ledger::{amount_of, Ledger};
use crate::types::{BasisPoints, EpochMillis, SaleError, STORAGE_PER_SALE};
use vstd::prelude::*;

verus! {

/// Payment settings copied from the contract's defaults when a sale is created.
pub struct PaymentConfig {
    pub min_deposit_amount: u128,
    /// `None` when the sale is paid in NEAR.
    pub payment_token_contract_address: Option<String>,
    /// Smallest unit count of one payment token ("one" NEAR is 10^24).
    pub payment_token_unit: u128,
    pub sale_fee: BasisPoints,
}

/// One sale and its escrow ledger.
pub struct Sale {
    pub id: u32,
    /// Unique name from which the id can be recovered.
    pub slug: String,
    pub sold_token_contract_address: String,
    /// Cap on the sold token that may ever be promised to buyers.
    pub max_available_sold_token: u128,
    /// Sold token promised to buyers.
    pub required_sold_token: u128,
    /// Payment escrowed for the seller.
    pub total_payment_token: u128,
    /// Sold-token units bought with one payment unit.
    pub one_payment_token_purchase_rate: u128,
    pub open_date_timestamp: EpochMillis,
    pub close_date_timestamp: EpochMillis,
    /// Claims open at this date; it is also the last date for the seller's deposit.
    pub release_date_timestamp: EpochMillis,
    /// Sold token deposited by the seller.
    pub sold_tokens_for_buyers: u128,
    /// Sold token promised to each buyer; sums to `required_sold_token`.
    pub claimable_sold_token_for_buyers: Ledger,
    /// Payment made by each buyer.
    pub deposits: Ledger,
    pub payment_config: PaymentConfig,
    /// Fee withheld by the last payment collection, pending transfer.
    pub total_fees: u128,
}

/// A sale as shown to readers.
pub struct SaleJSON {
    pub id: u32,
    pub slug: String,
    pub sold_token_contract_address: String,
    pub max_available_sold_token: u128,
    pub required_sold_token: u128,
    pub total_payment_token: u128,
    pub one_payment_token_purchase_rate: u128,
    pub open_date_timestamp: EpochMillis,
    pub close_date_timestamp: EpochMillis,
    pub release_date_timestamp: EpochMillis,
    pub sold_tokens_for_buyers: u128,
    pub min_deposit_amount: u128,
    pub payment_token_contract_address: Option<String>,
    pub payment_token_unit: u128,
    pub sale_fee: BasisPoints,
    pub total_fees: u128,
    pub is_in_near: bool,
    pub is_active: bool,
}

/// `j` shows the sale in state `s` at time `now`.
pub open spec fn json_matches(j: SaleJSON, s: SaleState, now: u64) -> bool {
    &&& j.id == s.id
    &&& j.slug@ == s.slug
    &&& j.sold_token_contract_address@ == s.sold_token
    &&& j.max_available_sold_token == s.max_available
    &&& j.required_sold_token == s.required
    &&& j.total_payment_token == s.total_payment
    &&& j.one_payment_token_purchase_rate == s.rate
    &&& j.open_date_timestamp == s.open
    &&& j.close_date_timestamp == s.close
    &&& j.release_date_timestamp == s.release
    &&& j.sold_tokens_for_buyers == s.sold_for_buyers
    &&& j.min_deposit_amount == s.min_deposit
    &&& option_view(j.payment_token_contract_address) == s.payment_token
    &&& j.payment_token_unit == s.unit
    &&& j.sale_fee == s.fee_bps
    &&& j.total_fees == s.total_fees
    &&& j.is_in_near == s.payment_token.is_none()
    &&& j.is_active == (now < s.close)
}

/// Abstract state of a sale: its scalar fields, its ledgers as maps, and the
/// sums of the ledgers.
pub ghost struct SaleState {
    pub id: u32,
    pub slug: Seq<char>,
    pub sold_token: Seq<char>,
    pub payment_token: Option<Seq<char>>,
    pub rate: u128,
    pub unit: u128,
    pub min_deposit: u128,
    pub fee_bps: u32,
    pub max_available: u128,
    pub required: u128,
    pub total_payment: u128,
    pub sold_for_buyers: u128,
    pub total_fees: u128,
    pub open: u64,
    pub close: u64,
    pub release: u64,
    pub claimable: Map<Seq<char>, u128>,
    pub claimable_total: nat,
    pub deposits: Map<Seq<char>, u128>,
    pub deposits_total: nat,
}

pub open spec fn option_view(o: Option<String>) -> Option<Seq<char>> {
    match o {
        Some(s) => Some(s@),
        None => None,
    }
}

impl View for Sale {
    type V = SaleState;

    open spec fn view(&self) -> SaleState {
        SaleState {
            id: self.id,
            slug: self.slug@,
            sold_token: self.sold_token_contract_address@,
            payment_token: option_view(self.payment_config.payment_token_contract_address),
            rate: self.one_payment_token_purchase_rate,
            unit: self.payment_config.payment_token_unit,
            min_deposit: self.payment_config.min_deposit_amount,
            fee_bps: self.payment_config.sale_fee,
            max_available: self.max_available_sold_token,
            required: self.required_sold_token,
            total_payment: self.total_payment_token,
            sold_for_buyers: self.sold_tokens_for_buyers,
            total_fees: self.total_fees,
            open: self.open_date_timestamp,
            close: self.close_date_timestamp,
            release: self.release_date_timestamp,
            claimable: self.claimable_sold_token_for_buyers@,
            claimable_total: self.claimable_sold_token_for_buyers.total(),
            deposits: self.deposits@,
            deposits_total: self.deposits.total(),
        }
    }
}

/// The invariant of a sale: the promised sold token stays within the cap and
/// equals the sum of the buyers' claims; the conversion and fee are defined;
/// the dates are strictly increasing.
pub open spec fn state_wf(s: SaleState) -> bool {
    &&& s.required <= s.max_available
    &&& s.claimable_total == s.required
    &&& s.unit > 0
    &&& s.fee_bps < BASIS_POINT
    &&& s.open < s.close < s.release
}

/// No single balance exceeds its ledger's sum, as holds of every ledger.
pub open spec fn ledger_sound(s: SaleState) -> bool {
    &&& forall|k: Seq<char>| #[trigger] amount_of(s.claimable, k) <= s.claimable_total
    &&& forall|k: Seq<char>| #[trigger] amount_of(s.deposits, k) <= s.deposits_total
}

/// Both ledgers balance their counters.
pub open spec fn conserved(s: SaleState) -> bool {
    &&& s.claimable_total == s.required
    &&& s.deposits_total == s.total_payment
}

/// The seller has deposited at least the sold token promised to buyers.
pub open spec fn covered(s: SaleState) -> bool {
    s.required <= s.sold_for_buyers
}

/// Stage at time `now`: 0 before opening, 1 while funding, 2 until release, 3 after.
pub open spec fn stage_spec(s: SaleState, now: u64) -> u8 {
    if now < s.open {
        0
    } else if now < s.close {
        1
    } else if now < s.release {
        2
    } else {
        3
    }
}

/// Sold token bought by `amount` of payment.
pub open spec fn sold_for(s: SaleState, amount: u128) -> nat {
    proportional_spec(amount as nat, s.rate as nat, s.unit as nat)
}

/// Why a payment of `amount` by `buyer` at `now` is rejected, if it is.
pub open spec fn deposit_error(s: SaleState, buyer: Seq<char>, amount: u128, now: u64) -> Option<
    SaleError,
> {
    if amount < s.min_deposit {
        Some(SaleError::BelowMinDeposit)
    } else if !(s.open <= now && now < s.close) {
        Some(SaleError::Stage)
    } else if sold_for(s, amount) + s.required > s.max_available {
        Some(SaleError::Capacity)
    } else if s.total_payment + amount > u128::MAX || amount_of(s.deposits, buyer) + amount
        > u128::MAX {
        Some(SaleError::Overflow)
    } else {
        None
    }
}

/// State after a payment of `amount` by `buyer`.
pub open spec fn deposit_state(s: SaleState, buyer: Seq<char>, amount: u128) -> SaleState {
    let sold = sold_for(s, amount);
    SaleState {
        total_payment: (s.total_payment + amount) as u128,
        required: (s.required + sold) as u128,
        claimable: s.claimable.insert(buyer, (amount_of(s.claimable, buyer) + sold) as u128),
        claimable_total: s.claimable_total + sold,
        deposits: s.deposits.insert(buyer, (amount_of(s.deposits, buyer) + amount) as u128),
        deposits_total: s.deposits_total + amount as nat,
        ..s
    }
}

/// Why a deposit of `amount` sold token by the seller at `now` is rejected, if it is.
pub open spec fn fund_error(s: SaleState, amount: u128, now: u64) -> Option<SaleError> {
    if now >= s.release {
        Some(SaleError::Stage)
    } else if s.sold_for_buyers + amount > u128::MAX {
        Some(SaleError::Overflow)
    } else {
        None
    }
}

/// State after the seller deposits `amount` sold token.
pub open spec fn fund_state(s: SaleState, amount: u128) -> SaleState {
    SaleState { sold_for_buyers: (s.sold_for_buyers + amount) as u128, ..s }
}

/// Why `buyer`'s withdrawal at `now` is rejected, if it is.
pub open spec fn withdraw_error(s: SaleState, buyer: Seq<char>, now: u64) -> Option<SaleError> {
    if now < s.release {
        Some(SaleError::Stage)
    } else if amount_of(s.claimable, buyer) == 0 || amount_of(s.deposits, buyer) == 0 {
        Some(SaleError::NothingToClaim)
    } else if !covered(s) && s.total_payment < amount_of(s.deposits, buyer) {
        Some(SaleError::InsufficientFunds)
    } else {
        None
    }
}

/// State after `buyer` withdraws: the claim and the deposit leave the ledgers;
/// a covered sale pays out sold token, an uncovered one refunds the payment.
pub open spec fn withdraw_state(s: SaleState, buyer: Seq<char>) -> SaleState {
    let c = amount_of(s.claimable, buyer);
    let d = amount_of(s.deposits, buyer);
    SaleState {
        claimable: s.claimable.remove(buyer),
        claimable_total: (s.claimable_total - c) as nat,
        deposits: s.deposits.remove(buyer),
        deposits_total: (s.deposits_total - d) as nat,
        required: (s.required - c) as u128,
        sold_for_buyers: if covered(s) {
            (s.sold_for_buyers - c) as u128
        } else {
            s.sold_for_buyers
        },
        total_payment: if covered(s) {
            s.total_payment
        } else {
            (s.total_payment - d) as u128
        },
        ..s
    }
}

/// Why restoring a failed buyer transfer of `claimable` / `deposit` is refused, if it is.
pub open spec fn restore_error(
    s: SaleState,
    buyer: Seq<char>,
    claimable: u128,
    deposit: u128,
    paid_in_sold_token: bool,
) -> Option<SaleError> {
    if s.required + claimable > s.max_available || amount_of(s.claimable, buyer) + claimable
        > u128::MAX || amount_of(s.deposits, buyer) + deposit > u128::MAX || (paid_in_sold_token
        && s.sold_for_buyers + claimable > u128::MAX) || (!paid_in_sold_token && s.total_payment
        + deposit > u128::MAX) {
        Some(SaleError::RollbackConflict)
    } else {
        None
    }
}

/// State after a failed buyer transfer is reversed: exactly the withdrawal's
/// changes are added back.
pub open spec fn restore_state(
    s: SaleState,
    buyer: Seq<char>,
    claimable: u128,
    deposit: u128,
    paid_in_sold_token: bool,
) -> SaleState {
    SaleState {
        claimable: s.claimable.insert(buyer, (amount_of(s.claimable, buyer) + claimable) as u128),
        claimable_total: s.claimable_total + claimable as nat,
        deposits: s.deposits.insert(buyer, (amount_of(s.deposits, buyer) + deposit) as u128),
        deposits_total: s.deposits_total + deposit as nat,
        required: (s.required + claimable) as u128,
        sold_for_buyers: if paid_in_sold_token {
            (s.sold_for_buyers + claimable) as u128
        } else {
            s.sold_for_buyers
        },
        total_payment: if paid_in_sold_token {
            s.total_payment
        } else {
            (s.total_payment + deposit) as u128
        },
        ..s
    }
}

/// Why collecting the payments at `now` is rejected, if it is.
pub open spec fn collect_payments_error(s: SaleState, now: u64) -> Option<SaleError> {
    if now <= s.close {
        Some(SaleError::Stage)
    } else if s.total_payment == 0 {
        Some(SaleError::InsufficientFunds)
    } else if !covered(s) {
        Some(SaleError::NotCovered)
    } else {
        None
    }
}

/// Fee withheld when the payments are collected.
pub open spec fn payment_fee(s: SaleState) -> nat {
    fee_spec(s.total_payment as nat, s.fee_bps as nat)
}

/// State after the payments are collected: the escrow is emptied and the fee is held.
pub open spec fn collect_payments_state(s: SaleState) -> SaleState {
    SaleState { total_payment: 0, total_fees: payment_fee(s) as u128, ..s }
}

/// Why restoring a failed payment transfer of `amount` is refused, if it is.
pub open spec fn restore_payments_error(s: SaleState, amount: u128) -> Option<SaleError> {
    if amount + s.total_fees > u128::MAX {
        Some(SaleError::RollbackConflict)
    } else {
        None
    }
}

/// State after a failed payment transfer of `amount` is reversed.
pub open spec fn restore_payments_state(s: SaleState, amount: u128) -> SaleState {
    SaleState { total_payment: (amount + s.total_fees) as u128, total_fees: 0, ..s }
}

/// Why collecting the fees at `now` is rejected, if it is.
pub open spec fn collect_fees_error(s: SaleState, now: u64) -> Option<SaleError> {
    if now <= s.close {
        Some(SaleError::Stage)
    } else if s.total_fees == 0 {
        Some(SaleError::InsufficientFunds)
    } else {
        None
    }
}

/// State after the fee is taken for transfer.
pub open spec fn collect_fees_state(s: SaleState) -> SaleState {
    SaleState { total_fees: 0, ..s }
}

/// State after a failed fee transfer of `amount` is reversed.
pub open spec fn restore_fees_state(s: SaleState, amount: u128) -> SaleState {
    SaleState { total_fees: amount, ..s }
}

/// Sold token that the seller may take back: the surplus over the claims of a
/// covered sale, or everything of a sale left uncovered at release.
pub open spec fn excess_of(s: SaleState) -> u128 {
    if covered(s) {
        (s.sold_for_buyers - s.required) as u128
    } else {
        s.sold_for_buyers
    }
}

/// Why the seller's excess withdrawal at `now` is rejected, if it is.
pub open spec fn excess_error(s: SaleState, now: u64) -> Option<SaleError> {
    if now <= s.close {
        Some(SaleError::Stage)
    } else if !covered(s) && now < s.release {
        Some(SaleError::Stage)
    } else if excess_of(s) == 0 {
        Some(SaleError::InsufficientFunds)
    } else {
        None
    }
}

/// State after the excess sold token is taken for transfer.
pub open spec fn withdraw_excess_state(s: SaleState) -> SaleState {
    SaleState { sold_for_buyers: (s.sold_for_buyers - excess_of(s)) as u128, ..s }
}

/// Restoring a failed excess transfer of `excess` is refused only on overflow.
pub open spec fn restore_excess_error(s: SaleState, excess: u128) -> Option<SaleError> {
    if s.sold_for_buyers + excess > u128::MAX {
        Some(SaleError::RollbackConflict)
    } else {
        None
    }
}

pub open spec fn result_of(e: Option<SaleError>) -> Result<(), SaleError> {
    match e {
        Some(e) => Err(e),
        None => Ok(()),
    }
}

impl Sale {
    /// The ledgers are well formed and the sale invariant holds.
    pub open spec fn wf(&self) -> bool {
        &&& self.claimable_sold_token_for_buyers.wf()
        &&& self.deposits.wf()
        &&& state_wf(self@)
    }

    /// The state of a well-formed sale is sound.
    pub proof fn lemma_sound(&self)
        requires
            self.claimable_sold_token_for_buyers.wf(),
            self.deposits.wf(),
        ensures
            ledger_sound(self@),
    {
        assert forall|k: Seq<char>| #[trigger] amount_of(self@.claimable, k) <= self@.claimable_total by {
            self.claimable_sold_token_for_buyers.lemma_amount_le_total(k);
        }
        assert forall|k: Seq<char>| #[trigger] amount_of(self@.deposits, k) <= self@.deposits_total by {
            self.deposits.lemma_amount_le_total(k);
        }
    }

    /// A new sale with empty ledgers and zero counters.
    pub fn new(
        id: u32,
        slug: String,
        sold_token_contract_address: String,
        one_payment_token_purchase_rate: u128,
        max_available_sold_token: u128,
        open_date_timestamp: EpochMillis,
        close_date_timestamp: EpochMillis,
        release_date_timestamp: EpochMillis,
        min_deposit_amount: u128,
        payment_token_contract_address: Option<String>,
        payment_token_unit: u128,
        sale_fee: BasisPoints,
    ) -> (r: Sale)
        ensures
            r.claimable_sold_token_for_buyers.wf(),
            r.deposits.wf(),
            r@ == (SaleState {
                id,
                slug: slug@,
                sold_token: sold_token_contract_address@,
                payment_token: option_view(payment_token_contract_address),
                rate: one_payment_token_purchase_rate,
                unit: payment_token_unit,
                min_deposit: min_deposit_amount,
                fee_bps: sale_fee,
                max_available: max_available_sold_token,
                required: 0,
                total_payment: 0,
                sold_for_buyers: 0,
                total_fees: 0,
                open: open_date_timestamp,
                close: close_date_timestamp,
                release: release_date_timestamp,
                claimable: Map::empty(),
                claimable_total: 0,
                deposits: Map::empty(),
                deposits_total: 0,
            }),
            conserved(r@),
            (payment_token_unit > 0 && sale_fee < BASIS_POINT && open_date_timestamp
                < close_date_timestamp && close_date_timestamp < release_date_timestamp) ==> r.wf(),
    {
        let claimable = Ledger::new();
        let deposits = Ledger::new();
        proof {
            claimable.lemma_empty_total();
            deposits.lemma_empty_total();
        }
        Sale {
            id,
            slug,
            sold_token_contract_address,
            one_payment_token_purchase_rate,
            max_available_sold_token,
            required_sold_token: 0,
            total_payment_token: 0,
            open_date_timestamp,
            close_date_timestamp,
            release_date_timestamp,
            sold_tokens_for_buyers: 0,
            claimable_sold_token_for_buyers: claimable,
            deposits,
            payment_config: PaymentConfig {
                min_deposit_amount,
                payment_token_contract_address,
                payment_token_unit,
                sale_fee,
            },
            total_fees: 0,
        }
    }

    /// The payment token of a sale that is not paid in NEAR.
    pub fn get_payment_token(&self) -> (r: String)
        requires
            self.payment_config.payment_token_contract_address.is_some(),
        ensures
            Some(r@) == self@.payment_token,
    {
        match &self.payment_config.payment_token_contract_address {
            Some(t) => t.clone(),
            None => String::new(),
        }
    }

    /// The token being sold.
    pub fn get_sold_token(&self) -> (r: String)
        ensures
            r@ == self@.sold_token,
    {
        self.sold_token_contract_address.clone()
    }

    /// The sale as shown to readers at time `now`.
    pub fn to_json(&self, now: EpochMillis) -> (r: SaleJSON)
        ensures
            json_matches(r, self@, now),
    {
        let payment_token_contract_address = match &self.payment_config.payment_token_contract_address {
            Some(t) => Some(t.clone()),
            None => None,
        };
        SaleJSON {
            id: self.id,
            slug: self.slug.clone(),
            sold_token_contract_address: self.sold_token_contract_address.clone(),
            max_available_sold_token: self.max_available_sold_token,
            required_sold_token: self.required_sold_token,
            total_payment_token: self.total_payment_token,
            one_payment_token_purchase_rate: self.one_payment_token_purchase_rate,
            open_date_timestamp: self.open_date_timestamp,
            close_date_timestamp: self.close_date_timestamp,
            release_date_timestamp: self.release_date_timestamp,
            sold_tokens_for_buyers: self.sold_tokens_for_buyers,
            min_deposit_amount: self.payment_config.min_deposit_amount,
            payment_token_contract_address,
            payment_token_unit: self.payment_config.payment_token_unit,
            sale_fee: self.payment_config.sale_fee,
            total_fees: self.total_fees,
            is_in_near: self.is_near_accepted(),
            is_active: self.is_active(now),
        }
    }

    /// Whether the attached bond pays for a sale's storage.
    pub fn assert_storage_is_covered(attached_deposit: u128) -> (r: Result<(), SaleError>)
        ensures
            r == (if attached_deposit >= STORAGE_PER_SALE {
                Ok(())
            } else {
                Err(SaleError::StorageNotCovered)
            }),
    {
        if attached_deposit >= STORAGE_PER_SALE {
            Ok(())
        } else {
            Err(SaleError::StorageNotCovered)
        }
    }

    /// Sold token promised to `buyer_id`, zero if none.
    pub fn get_buyer_claimable_sold_token(&self, buyer_id: &String) -> (r: u128)
        requires
            self.claimable_sold_token_for_buyers.wf(),
        ensures
            r == amount_of(self@.claimable, buyer_id@),
    {
        self.claimable_sold_token_for_buyers.amount(buyer_id)
    }

    /// Payment made by `buyer_id`, zero if none.
    pub fn get_buyer_deposit(&self, buyer_id: &String) -> (r: u128)
        requires
            self.deposits.wf(),
        ensures
            r == amount_of(self@.deposits, buyer_id@),
    {
        self.deposits.amount(buyer_id)
    }

    /// Sold token bought by `amount` of payment, or `None` if it exceeds a `u128`.
    pub fn from_payment_to_sold_token(&self, amount: u128) -> (r: Option<u128>)
        requires
            self@.unit > 0,
        ensures
            match r {
                Some(v) => v == sold_for(self@, amount),
                None => sold_for(self@, amount) > u128::MAX,
            },
    {
        checked_proportional(
            amount,
            self.one_payment_token_purchase_rate,
            self.payment_config.payment_token_unit,
        )
    }

    /// Whether the sale is paid in NEAR.
    pub fn is_near_accepted(&self) -> (r: bool)
        ensures
            r == self@.payment_token.is_none(),
    {
        self.payment_config.payment_token_contract_address.is_none()
    }

    /// A sale is listed as active until its close date.
    pub fn is_active(&self, now: EpochMillis) -> (r: bool)
        ensures
            r == (now < self@.close),
    {
        now < self.close_date_timestamp
    }

    /// Whether `now` is in the funding window `[open, close)`.
    pub fn is_within_funding_period(&self, now: EpochMillis) -> (r: bool)
        ensures
            r == (self@.open <= now && now < self@.close),
    {
        now < self.close_date_timestamp && now >= self.open_date_timestamp
    }

    /// Whether the seller's deposit covers every promised claim.
    pub fn are_sold_tokens_covered(&self) -> (r: bool)
        ensures
            r == covered(self@),
    {
        self.required_sold_token <= self.sold_tokens_for_buyers
    }

    /// The stage of the sale at `now` (0 to 3).
    pub fn stage(&self, now: EpochMillis) -> (r: u8)
        ensures
            r == stage_spec(self@, now),
    {
        if now < self.open_date_timestamp {
            0
        } else if now < self.close_date_timestamp {
            1
        } else if now < self.release_date_timestamp {
            2
        } else {
            3
        }
    }

    /// Rejects a payment below the sale's minimum.
    pub fn assert_min_deposit_amount(&self, amount: u128) -> (r: Result<(), SaleError>)
        ensures
            r == (if amount >= self@.min_deposit {
                Ok(())
            } else {
                Err(SaleError::BelowMinDeposit)
            }),
    {
        if amount >= self.payment_config.min_deposit_amount {
            Ok(())
        } else {
            Err(SaleError::BelowMinDeposit)
        }
    }

    /// Accepts dates only when the sale opens after `now` and the dates strictly increase.
    pub fn assert_input_timestamps(&self, now: EpochMillis) -> (r: Result<(), SaleError>)
        ensures
            r == (if now < self@.open && self@.open < self@.close && self@.close < self@.release {
                Ok(())
            } else {
                Err(SaleError::InvalidDates)
            }),
    {
        if self.open_date_timestamp > now && self.close_date_timestamp > self.open_date_timestamp
            && self.release_date_timestamp > self.close_date_timestamp {
            Ok(())
        } else {
            Err(SaleError::InvalidDates)
        }
    }

    /// Rejects an operation outside the funding window.
    pub fn assert_within_funding_period(&self, now: EpochMillis) -> (r: Result<(), SaleError>)
        ensures
            r == (if self@.open <= now && now < self@.close {
                Ok(())
            } else {
                Err(SaleError::Stage)
            }),
    {
        if self.is_within_funding_period(now) {
            Ok(())
        } else {
            Err(SaleError::Stage)
        }
    }

    /// Rejects an operation before the release date.
    pub fn assert_after_release_period(&self, now: EpochMillis) -> (r: Result<(), SaleError>)
        ensures
            r == (if now >= self@.release {
                Ok(())
            } else {
                Err(SaleError::Stage)
            }),
    {
        if now >= self.release_date_timestamp {
            Ok(())
        } else {
            Err(SaleError::Stage)
        }
    }

    /// Rejects an operation at or before the close date.
    pub fn assert_after_close_period(&self, now: EpochMillis) -> (r: Result<(), SaleError>)
        ensures
            r == (if now > self@.close {
                Ok(())
            } else {
                Err(SaleError::Stage)
            }),
    {
        if now > self.close_date_timestamp {
            Ok(())
        } else {
            Err(SaleError::Stage)
        }
    }
}

/// What a buyer's withdrawal took out of the sale.
#[derive(Clone, Copy, Debug, PartialEq, Eq, Structural)]
pub struct BuyerWithdrawal {
    /// Sold token that was promised to the buyer.
    pub claimable: u128,
    /// Payment that the buyer had made.
    pub deposit: u128,
    /// `true` when the sale was covered and the buyer receives sold token;
    /// `false` when the buyer is refunded the payment.
    pub paid_in_sold_token: bool,
}

impl Sale {
    /// Whether a payment of `amount` by `buyer_id` at `now` would be accepted.
    pub fn check_deposit(&self, buyer_id: &String, amount: u128, now: EpochMillis) -> (r: Result<
        (),
        SaleError,
    >)
        requires
            self.wf(),
        ensures
            r == result_of(deposit_error(self@, buyer_id@, amount, now)),
    {
        if let Err(e) = self.assert_min_deposit_amount(amount) {
            return Err(e);
        }
        if let Err(e) = self.assert_within_funding_period(now) {
            return Err(e);
        }
        let sold = match self.from_payment_to_sold_token(amount) {
            Some(v) => v,
            None => {
                return Err(SaleError::Capacity);
            },
        };
        if sold > self.max_available_sold_token - self.required_sold_token {
            return Err(SaleError::Capacity);
        }
        if amount > u128::MAX - self.total_payment_token {
            return Err(SaleError::Overflow);
        }
        if amount > u128::MAX - self.get_buyer_deposit(buyer_id) {
            return Err(SaleError::Overflow);
        }
        Ok(())
    }

    /// Accepts a payment of `amount` from `buyer_id` at `now`: the payment is
    /// escrowed and converted into a claim on the sold token. The whole
    /// payment is rejected if any check fails.
    pub fn deposit_payment(&mut self, buyer_id: &String, amount: u128, now: EpochMillis) -> (r:
        Result<(), SaleError>)
        requires
            old(self).wf(),
        ensures
            final(self).wf(),
            r == result_of(deposit_error(old(self)@, buyer_id@, amount, now)),
            r is Ok ==> final(self)@ == deposit_state(old(self)@, buyer_id@, amount),
            r is Err ==> *final(self) == *old(self),
    {
        if let Err(e) = self.check_deposit(buyer_id, amount, now) {
            return Err(e);
        }
        let sold = match self.from_payment_to_sold_token(amount) {
            Some(v) => v,
            None => 0,
        };
        proof {
            self.claimable_sold_token_for_buyers.lemma_amount_le_total(buyer_id@);
        }
        self.total_payment_token = self.total_payment_token + amount;
        let claimed = self.claimable_sold_token_for_buyers.amount(buyer_id);
        self.claimable_sold_token_for_buyers.set_amount(buyer_id.clone(), claimed + sold);
        self.required_sold_token = self.required_sold_token + sold;
        let paid = self.deposits.amount(buyer_id);
        self.deposits.set_amount(buyer_id.clone(), paid + amount);
        Ok(())
    }

    /// Accepts `amount` sold token from the seller; rejected from the release date on.
    pub fn deposit_sold_tokens(&mut self, amount: u128, now: EpochMillis) -> (r: Result<
        (),
        SaleError,
    >)
        requires
            old(self).wf(),
        ensures
            final(self).wf(),
            r == result_of(fund_error(old(self)@, amount, now)),
            r is Ok ==> final(self)@ == fund_state(old(self)@, amount),
            r is Err ==> *final(self) == *old(self),
    {
        if now >= self.release_date_timestamp {
            return Err(SaleError::Stage);
        }
        if amount > u128::MAX - self.sold_tokens_for_buyers {
            return Err(SaleError::Overflow);
        }
        self.sold_tokens_for_buyers = self.sold_tokens_for_buyers + amount;
        Ok(())
    }

    /// Whether `buyer_id` may withdraw at `now`.
    pub fn check_withdraw(&self, buyer_id: &String, now: EpochMillis) -> (r: Result<(), SaleError>)
        requires
            self.wf(),
        ensures
            r == result_of(withdraw_error(self@, buyer_id@, now)),
    {
        if let Err(e) = self.assert_after_release_period(now) {
            return Err(e);
        }
        let claimable = self.get_buyer_claimable_sold_token(buyer_id);
        let deposit = self.get_buyer_deposit(buyer_id);
        if claimable == 0 || deposit == 0 {
            return Err(SaleError::NothingToClaim);
        }
        if !self.are_sold_tokens_covered() && self.total_payment_token < deposit {
            return Err(SaleError::InsufficientFunds);
        }
        Ok(())
    }

    /// Removes `buyer_id`'s claim and deposit after the release date. A
    /// covered sale releases the claimed sold token; an uncovered one gives
    /// back the deposit and keeps its sold token for the seller.
    pub fn withdraw_buyer(&mut self, buyer_id: &String, now: EpochMillis) -> (r: Result<
        BuyerWithdrawal,
        SaleError,
    >)
        requires
            old(self).wf(),
        ensures
            final(self).wf(),
            match withdraw_error(old(self)@, buyer_id@, now) {
                Some(e) => r == Err::<BuyerWithdrawal, SaleError>(e) && *final(self) == *old(self),
                None => r == Ok::<BuyerWithdrawal, SaleError>(
                    BuyerWithdrawal {
                        claimable: amount_of(old(self)@.claimable, buyer_id@) as u128,
                        deposit: amount_of(old(self)@.deposits, buyer_id@) as u128,
                        paid_in_sold_token: covered(old(self)@),
                    },
                ) && final(self)@ == withdraw_state(old(self)@, buyer_id@),
            },
    {
        if let Err(e) = self.check_withdraw(buyer_id, now) {
            return Err(e);
        }
        let is_covered = self.are_sold_tokens_covered();
        proof {
            self.claimable_sold_token_for_buyers.lemma_amount_le_total(buyer_id@);
        }
        let claimable = match self.claimable_sold_token_for_buyers.take(buyer_id) {
            Some(v) => v,
            None => 0,
        };
        let deposit = match self.deposits.take(buyer_id) {
            Some(v) => v,
            None => 0,
        };
        self.required_sold_token = self.required_sold_token - claimable;
        if is_covered {
            self.sold_tokens_for_buyers = self.sold_tokens_for_buyers - claimable;
        } else {
            self.total_payment_token = self.total_payment_token - deposit;
        }
        Ok(BuyerWithdrawal { claimable, deposit, paid_in_sold_token: is_covered })
    }

    /// Whether a buyer withdrawal of `claimable` / `deposit` can be reversed.
    pub fn check_restore_buyer(
        &self,
        buyer_id: &String,
        claimable: u128,
        deposit: u128,
        paid_in_sold_token: bool,
    ) -> (r: Result<(), SaleError>)
        requires
            self.wf(),
        ensures
            r == result_of(restore_error(self@, buyer_id@, claimable, deposit, paid_in_sold_token)),
    {
        let claimed = self.get_buyer_claimable_sold_token(buyer_id);
        let paid = self.get_buyer_deposit(buyer_id);
        if claimable > self.max_available_sold_token - self.required_sold_token || claimable
            > u128::MAX - claimed || deposit > u128::MAX - paid || (paid_in_sold_token && claimable
            > u128::MAX - self.sold_tokens_for_buyers) || (!paid_in_sold_token && deposit
            > u128::MAX - self.total_payment_token) {
            Err(SaleError::RollbackConflict)
        } else {
            Ok(())
        }
    }

    /// Reverses a buyer withdrawal whose transfer failed: adds back exactly
    /// the claim, the deposit and the counters that the withdrawal decreased.
    pub fn restore_buyer(
        &mut self,
        buyer_id: &String,
        claimable: u128,
        deposit: u128,
        paid_in_sold_token: bool,
    ) -> (r: Result<(), SaleError>)
        requires
            old(self).wf(),
        ensures
            final(self).wf(),
            r == result_of(
                restore_error(old(self)@, buyer_id@, claimable, deposit, paid_in_sold_token),
            ),
            r is Ok ==> final(self)@ == restore_state(
                old(self)@,
                buyer_id@,
                claimable,
                deposit,
                paid_in_sold_token,
            ),
            r is Err ==> *final(self) == *old(self),
    {
        if let Err(e) = self.check_restore_buyer(buyer_id, claimable, deposit, paid_in_sold_token) {
            return Err(e);
        }
        let claimed = self.get_buyer_claimable_sold_token(buyer_id);
        let paid = self.get_buyer_deposit(buyer_id);
        self.claimable_sold_token_for_buyers.set_amount(buyer_id.clone(), claimed + claimable);
        self.deposits.set_amount(buyer_id.clone(), paid + deposit);
        self.required_sold_token = self.required_sold_token + claimable;
        if paid_in_sold_token {
            self.sold_tokens_for_buyers = self.sold_tokens_for_buyers + claimable;
        } else {
            self.total_payment_token = self.total_payment_token + deposit;
        }
        Ok(())
    }

    /// Whether the payments can be collected at `now`.
    pub fn check_collect_payments(&self, now: EpochMillis) -> (r: Result<(), SaleError>)
        ensures
            r == result_of(collect_payments_error(self@, now)),
    {
        if let Err(e) = self.assert_after_close_period(now) {
            return Err(e);
        }
        if self.total_payment_token == 0 {
            return Err(SaleError::InsufficientFunds);
        }
        if !self.are_sold_tokens_covered() {
            return Err(SaleError::NotCovered);
        }
        Ok(())
    }

    /// Whether a failed payment transfer of `amount` can be reversed.
    pub fn check_restore_payments(&self, amount: u128) -> (r: Result<(), SaleError>)
        ensures
            r == result_of(restore_payments_error(self@, amount)),
    {
        if amount > u128::MAX - self.total_fees {
            Err(SaleError::RollbackConflict)
        } else {
            Ok(())
        }
    }

    /// Whether the fees can be collected at `now`.
    pub fn check_collect_fees(&self, now: EpochMillis) -> (r: Result<(), SaleError>)
        ensures
            r == result_of(collect_fees_error(self@, now)),
    {
        if let Err(e) = self.assert_after_close_period(now) {
            return Err(e);
        }
        if self.total_fees == 0 {
            return Err(SaleError::InsufficientFunds);
        }
        Ok(())
    }

    /// Whether the seller can withdraw excess sold token at `now`.
    pub fn check_withdraw_excess(&self, now: EpochMillis) -> (r: Result<(), SaleError>)
        ensures
            r == result_of(excess_error(self@, now)),
    {
        if let Err(e) = self.assert_after_close_period(now) {
            return Err(e);
        }
        let excess = if self.are_sold_tokens_covered() {
            self.sold_tokens_for_buyers - self.required_sold_token
        } else {
            if let Err(e) = self.assert_after_release_period(now) {
                return Err(e);
            }
            self.sold_tokens_for_buyers
        };
        if excess == 0 {
            return Err(SaleError::InsufficientFunds);
        }
        Ok(())
    }

    /// Whether a failed excess transfer of `excess` can be reversed.
    pub fn check_restore_excess(&self, excess: u128) -> (r: Result<(), SaleError>)
        ensures
            r == result_of(restore_excess_error(self@, excess)),
    {
        if excess > u128::MAX - self.sold_tokens_for_buyers {
            Err(SaleError::RollbackConflict)
        } else {
            Ok(())
        }
    }

    /// Empties the payment escrow after the close date of a covered sale:
    /// the fee is withheld in `total_fees` and the rest is returned for
    /// transfer to the treasury.
    pub fn collect_payments(&mut self, now: EpochMillis) -> (r: Result<u128, SaleError>)
        requires
            old(self).wf(),
        ensures
            final(self).wf(),
            match collect_payments_error(old(self)@, now) {
                Some(e) => r == Err::<u128, SaleError>(e) && *final(self) == *old(self),
                None => r == Ok::<u128, SaleError>(
                    (old(self)@.total_payment - payment_fee(old(self)@)) as u128,
                ) && final(self)@ == collect_payments_state(old(self)@),
            },
    {
        if let Err(e) = self.check_collect_payments(now) {
            return Err(e);
        }
        let fee = compute_fee(self.total_payment_token, self.payment_config.sale_fee);
        let to_send = self.total_payment_token - fee;
        self.total_payment_token = 0;
        self.total_fees = fee;
        Ok(to_send)
    }

    /// Reverses a payment collection whose transfer of `amount` failed.
    pub fn restore_payments(&mut self, amount: u128) -> (r: Result<(), SaleError>)
        requires
            old(self).wf(),
        ensures
            final(self).wf(),
            r == result_of(restore_payments_error(old(self)@, amount)),
            r is Ok ==> final(self)@ == restore_payments_state(old(self)@, amount),
            r is Err ==> *final(self) == *old(self),
    {
        if let Err(e) = self.check_restore_payments(amount) {
            return Err(e);
        }
        self.total_payment_token = amount + self.total_fees;
        self.total_fees = 0;
        Ok(())
    }

    /// Takes the withheld fee after the close date, for transfer to the treasury.
    pub fn collect_fees(&mut self, now: EpochMillis) -> (r: Result<u128, SaleError>)
        requires
            old(self).wf(),
        ensures
            final(self).wf(),
            match collect_fees_error(old(self)@, now) {
                Some(e) => r == Err::<u128, SaleError>(e) && *final(self) == *old(self),
                None => r == Ok::<u128, SaleError>(old(self)@.total_fees) && final(self)@
                    == collect_fees_state(old(self)@),
            },
    {
        if let Err(e) = self.check_collect_fees(now) {
            return Err(e);
        }
        let to_send = self.total_fees;
        self.total_fees = 0;
        Ok(to_send)
    }

    /// Reverses a fee collection whose transfer of `amount` failed.
    pub fn restore_fees(&mut self, amount: u128)
        requires
            old(self).wf(),
        ensures
            final(self).wf(),
            final(self)@ == restore_fees_state(old(self)@, amount),
    {
        self.total_fees = amount;
    }

    /// Takes the sold token that the seller may reclaim (see `excess_of`),
    /// for transfer to the seller.
    pub fn withdraw_excess(&mut self, now: EpochMillis) -> (r: Result<u128, SaleError>)
        requires
            old(self).wf(),
        ensures
            final(self).wf(),
            match excess_error(old(self)@, now) {
                Some(e) => r == Err::<u128, SaleError>(e) && *final(self) == *old(self),
                None => r == Ok::<u128, SaleError>(excess_of(old(self)@)) && final(self)@
                    == withdraw_excess_state(old(self)@),
            },
    {
        if let Err(e) = self.check_withdraw_excess(now) {
            return Err(e);
        }
        let excess = if self.are_sold_tokens_covered() {
            self.sold_tokens_for_buyers - self.required_sold_token
        } else {
            self.sold_tokens_for_buyers
        };
        self.sold_tokens_for_buyers = self.sold_tokens_for_buyers - excess;
        Ok(excess)
    }

    /// Reverses an excess withdrawal whose transfer of `excess` failed.
    pub fn restore_excess(&mut self, excess: u128) -> (r: Result<(), SaleError>)
        requires
            old(self).wf(),
        ensures
            final(self).wf(),
            r == result_of(restore_excess_error(old(self)@, excess)),
            r is Ok ==> final(self)@ == fund_state(old(self)@, excess),
            r is Err ==> *final(self) == *old(self),
    {
        if let Err(e) = self.check_restore_excess(excess) {
            return Err(e);
        }
        self.sold_tokens_for_buyers = self.sold_tokens_for_buyers + excess;
        Ok(())
    }
}

} // verus!
