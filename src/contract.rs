//! The sale registry: creation, payments, withdrawals, collections, transfer
//! reports and read views. Caller, attached amount and time come in as values;
//! outgoing transfers go out as `Transfer` requests.

use crate::arith::{check_basis_points, BASIS_POINT};
use crate::buyer::Buyer;
use crate::ledger::{amount_of, AccountMap};
use crate::parse::{parse_u32, parse_u32_spec};
use crate::sale::{
    collect_fees_error, collect_fees_state, collect_payments_error, collect_payments_state, covered,
    deposit_error, deposit_state, excess_error, excess_of, fund_error, fund_state, json_matches,
    option_view, payment_fee, restore_error, restore_excess_error, restore_fees_state,
    restore_payments_error, restore_payments_state, restore_state, result_of, withdraw_error,
    withdraw_excess_state, withdraw_state, BuyerWithdrawal, Sale, SaleJSON, SaleState,
};
use crate::types::{BasisPoints, EpochMillis, SaleError, NEAR, STORAGE_PER_SALE};
use vstd::prelude::*;

verus! {

/// The sales in which `account` holds a position, per a buyer registry.
pub open spec fn sales_of(buyers: Map<Seq<char>, Buyer>, account: Seq<char>) -> Set<u32> {
    if buyers.contains_key(account) {
        buyers[account]@
    } else {
        Set::empty()
    }
}

/// Whether some sale already uses `slug`.
pub open spec fn slug_taken(sales: Seq<Sale>, slug: Seq<char>) -> bool {
    exists|i: int| 0 <= i < sales.len() && #[trigger] sales[i].slug@ == slug
}

/// Why creating a sale is rejected, if it is.
pub open spec fn create_sale_error(
    c: KatherineSaleContract,
    caller: Seq<char>,
    attached_deposit: u128,
    now: u64,
    slug: Seq<char>,
    open: u64,
    close: u64,
    release: u64,
) -> Option<SaleError> {
    if caller != c.owner_id@ {
        Some(SaleError::Authorization)
    } else if slug_taken(c.sales@, slug) {
        Some(SaleError::DuplicateSlug)
    } else if attached_deposit < STORAGE_PER_SALE {
        Some(SaleError::StorageNotCovered)
    } else if c.sales@.len() >= u32::MAX {
        Some(SaleError::Overflow)
    } else if !(now < open && open < close && close < release) {
        Some(SaleError::InvalidDates)
    } else {
        None
    }
}

/// What the resolve step needs to keep or reverse the ledger change made
/// before a transfer.
#[derive(Clone, Debug)]
pub enum Resolution {
    /// Sold token released to a buyer of a covered sale.
    BuyerSoldTokens { buyer_id: String, sale_id: u32, claimable: u128, deposit: u128 },
    /// Payment refunded to a buyer of an uncovered sale.
    BuyerPaymentTokens { buyer_id: String, sale_id: u32, claimable: u128, deposit: u128 },
    /// Net payments sent to the treasury.
    SellerPayments { sale_id: u32, amount: u128 },
    /// Withheld fee sent to the treasury.
    SellerFees { sale_id: u32, amount: u128 },
    /// Excess sold token sent back to the owner.
    SellerExcess { sale_id: u32, excess: u128 },
}

/// An outgoing transfer that the caller must perform, then report back with
/// `resolve_transfer`.
#[derive(Clone, Debug)]
pub struct Transfer {
    /// Token contract to transfer from, or `None` for NEAR.
    pub token_id: Option<String>,
    pub receiver_id: String,
    pub amount: u128,
    pub resolution: Resolution,
}

/// `res` describes the withdrawal by `buyer` of `c` claim and `d` deposit
/// from sale `id`, paid in sold token or refunded as payment.
pub open spec fn is_buyer_resolution(
    res: Resolution,
    buyer: Seq<char>,
    id: u32,
    c: u128,
    d: u128,
    paid_in_sold_token: bool,
) -> bool {
    match res {
        Resolution::BuyerSoldTokens { buyer_id, sale_id, claimable, deposit } => paid_in_sold_token
            && buyer_id@ == buyer && sale_id == id && claimable == c && deposit == d,
        Resolution::BuyerPaymentTokens { buyer_id, sale_id, claimable, deposit } =>
            !paid_in_sold_token && buyer_id@ == buyer && sale_id == id && claimable == c && deposit
            == d,
        _ => false,
    }
}

/// Why `buyer`'s withdrawal from sale `id` at `now` is rejected, if it is.
pub open spec fn withdraw_tokens_error(
    c: KatherineSaleContract,
    buyer: Seq<char>,
    id: u32,
    now: u64,
) -> Option<SaleError> {
    if id >= c.sales@.len() {
        Some(SaleError::UnknownSale)
    } else {
        withdraw_error(c.sales@[id as int]@, buyer, now)
    }
}

/// Outcome of `buyer`'s withdrawal from sale `id` at `now`: the claim and
/// deposit leave the sale, the sale leaves the buyer's positions, and the
/// transfer pays the claim in sold token (covered sale) or refunds the deposit.
pub open spec fn withdraw_outcome(
    old: KatherineSaleContract,
    new: KatherineSaleContract,
    buyer: Seq<char>,
    id: u32,
    now: u64,
    r: Result<Transfer, SaleError>,
) -> bool {
    match withdraw_tokens_error(old, buyer, id, now) {
        Some(e) => r == Err::<Transfer, SaleError>(e) && new == old,
        None => {
            let s = old.sales@[id as int]@;
            let c = amount_of(s.claimable, buyer) as u128;
            let d = amount_of(s.deposits, buyer) as u128;
            &&& sale_updated(old, new, id as int, withdraw_state(s, buyer))
            &&& buyer_left(old, new, buyer, id)
            &&& settings_kept(old, new)
            &&& new.active_sales == old.active_sales
            &&& r is Ok
            &&& r->Ok_0.receiver_id@ == buyer
            &&& option_view(r->Ok_0.token_id) == if covered(s) {
                Some(s.sold_token)
            } else {
                s.payment_token
            }
            &&& r->Ok_0.amount == if covered(s) {
                c
            } else {
                d
            }
            &&& is_buyer_resolution(r->Ok_0.resolution, buyer, id, c, d, covered(s))
        },
    }
}

/// Why an owner operation on sale `id` is rejected before the sale's own checks, if it is.
pub open spec fn owner_op_error(c: KatherineSaleContract, caller: Seq<char>, id: u32) -> Option<
    SaleError,
> {
    if caller != c.owner_id@ {
        Some(SaleError::Authorization)
    } else if id >= c.sales@.len() {
        Some(SaleError::UnknownSale)
    } else {
        None
    }
}

/// Sale `id` was dropped from the active index, which is otherwise unchanged.
pub open spec fn active_removed(
    old: KatherineSaleContract,
    new: KatherineSaleContract,
    id: u32,
) -> bool {
    forall|x: u32| #[trigger]
        new.active_sales@.contains(x) <==> (old.active_sales@.contains(x) && x != id)
}

/// Outcome of the report on a buyer transfer: success drops a buyer left
/// with no position; failure restores the withdrawn claim and deposit and
/// the buyer's position.
pub open spec fn buyer_resolve_outcome(
    old: KatherineSaleContract,
    new: KatherineSaleContract,
    buyer: Seq<char>,
    c: u128,
    d: u128,
    id: u32,
    paid_in_sold_token: bool,
    succeeded: bool,
    r: Result<(), SaleError>,
) -> bool {
    if succeeded {
        &&& r == Ok::<(), SaleError>(())
        &&& if old.buyers@.contains_key(buyer) && old.buyers@[buyer]@ == Set::<u32>::empty() {
            new == KatherineSaleContract { buyers: new.buyers, ..old } && new.buyers@
                == old.buyers@.remove(buyer)
        } else {
            new == old
        }
    } else if id >= old.sales@.len() {
        r == Err::<(), SaleError>(SaleError::UnknownSale) && new == old
    } else {
        &&& r == result_of(restore_error(old.sales@[id as int]@, buyer, c, d, paid_in_sold_token))
        &&& r is Err ==> new == old
        &&& r is Ok ==> {
            &&& sale_updated(
                old,
                new,
                id as int,
                restore_state(old.sales@[id as int]@, buyer, c, d, paid_in_sold_token),
            )
            &&& buyer_joined(old, new, buyer, id)
            &&& settings_kept(old, new)
            &&& new.active_sales == old.active_sales
        }
    }
}

/// Outcome of the report on a seller transfer: success changes nothing;
/// failure applies `restored` to sale `id` unless `conflict` holds.
pub open spec fn seller_resolve_outcome(
    old: KatherineSaleContract,
    new: KatherineSaleContract,
    id: u32,
    succeeded: bool,
    conflict: bool,
    restored: SaleState,
    r: Result<(), SaleError>,
) -> bool {
    if succeeded {
        r == Ok::<(), SaleError>(()) && new == old
    } else if id >= old.sales@.len() {
        r == Err::<(), SaleError>(SaleError::UnknownSale) && new == old
    } else if conflict {
        r == Err::<(), SaleError>(SaleError::RollbackConflict) && new == old
    } else {
        &&& r == Ok::<(), SaleError>(())
        &&& sale_updated(old, new, id as int, restored)
        &&& new.buyers == old.buyers
        &&& settings_kept(old, new)
        &&& new.active_sales == old.active_sales
    }
}

/// The sale registry and the defaults given to new sales.
pub struct KatherineSaleContract {
    pub owner_id: String,
    /// Positions of each buyer; a buyer with none may be dropped.
    pub buyers: AccountMap<Buyer>,
    /// Every sale ever created; a sale's id is its index.
    pub sales: Vec<Sale>,
    /// Sales not yet collected by the owner.
    pub active_sales: Vec<u32>,
    /// Minimum payment for new sales paid in NEAR.
    pub min_deposit_amount_in_near: u128,
    /// Minimum payment for new sales paid in the payment token.
    pub min_deposit_amount_in_payment_token: u128,
    /// Payment token of new sales not paid in NEAR.
    pub payment_token_contract_address: String,
    /// Smallest units in one payment token (1.0 USDT is 1_000_000).
    pub payment_token_unit: u128,
    /// Fee of new sales, in basis points.
    pub sale_fee: BasisPoints,
    /// Receiver of the collected payments and fees.
    pub treasury_id: String,
}

/// The same outcome with the success value dropped.
pub open spec fn discard_value(r: Result<u128, SaleError>) -> Result<(), SaleError> {
    match r {
        Ok(_) => Ok(()),
        Err(e) => Err(e),
    }
}

/// Only the sale `id` changed, and its new state is `s`.
pub open spec fn sale_updated(
    old: KatherineSaleContract,
    new: KatherineSaleContract,
    id: int,
    s: SaleState,
) -> bool {
    &&& new.sales@.len() == old.sales@.len()
    &&& new.sales@[id]@ == s
    &&& forall|j: int| 0 <= j < old.sales@.len() && j != id ==> new.sales@[j] == old.sales@[j]
}

/// Owner, treasury and defaults are unchanged.
pub open spec fn settings_kept(old: KatherineSaleContract, new: KatherineSaleContract) -> bool {
    &&& new.owner_id == old.owner_id
    &&& new.treasury_id == old.treasury_id
    &&& new.min_deposit_amount_in_near == old.min_deposit_amount_in_near
    &&& new.min_deposit_amount_in_payment_token == old.min_deposit_amount_in_payment_token
    &&& new.payment_token_contract_address == old.payment_token_contract_address
    &&& new.payment_token_unit == old.payment_token_unit
    &&& new.sale_fee == old.sale_fee
}

/// `buyer` now holds a position in sale `id`; no other buyer changed.
pub open spec fn buyer_joined(
    old: KatherineSaleContract,
    new: KatherineSaleContract,
    buyer: Seq<char>,
    id: u32,
) -> bool {
    &&& new.buyers@ == old.buyers@.insert(buyer, new.buyers@[buyer])
    &&& new.buyers@[buyer]@ == sales_of(old.buyers@, buyer).insert(id)
}

/// `buyer` no longer holds a position in sale `id`; no other buyer changed.
pub open spec fn buyer_left(
    old: KatherineSaleContract,
    new: KatherineSaleContract,
    buyer: Seq<char>,
    id: u32,
) -> bool {
    &&& new.buyers@ == old.buyers@.insert(buyer, new.buyers@[buyer])
    &&& new.buyers@[buyer]@ == sales_of(old.buyers@, buyer).remove(id)
}

/// Outcome of a payment of `amount` by `buyer` into sale `id` (known to exist).
pub open spec fn deposit_outcome(
    old: KatherineSaleContract,
    new: KatherineSaleContract,
    buyer: Seq<char>,
    amount: u128,
    id: u32,
    now: u64,
    r: Result<(), SaleError>,
) -> bool {
    &&& r == result_of(deposit_error(old.sales@[id as int]@, buyer, amount, now))
    &&& r is Err ==> new == old
    &&& r is Ok ==> {
        &&& sale_updated(old, new, id as int, deposit_state(old.sales@[id as int]@, buyer, amount))
        &&& buyer_joined(old, new, buyer, id)
        &&& settings_kept(old, new)
        &&& new.active_sales == old.active_sales
    }
}

/// Outcome of the seller's deposit of `amount` sold token into sale `id` (known to exist).
pub open spec fn fund_outcome(
    old: KatherineSaleContract,
    new: KatherineSaleContract,
    amount: u128,
    id: u32,
    now: u64,
    r: Result<(), SaleError>,
) -> bool {
    &&& r == result_of(fund_error(old.sales@[id as int]@, amount, now))
    &&& r is Err ==> new == old
    &&& r is Ok ==> {
        &&& sale_updated(old, new, id as int, fund_state(old.sales@[id as int]@, amount))
        &&& new.buyers == old.buyers
        &&& settings_kept(old, new)
        &&& new.active_sales == old.active_sales
    }
}

/// End of the page of `limit` items starting at `from` in a list of `len`.
pub open spec fn page_end(from: u32, limit: u32, len: nat) -> int {
    if from + limit < len {
        from + limit
    } else {
        len as int
    }
}

/// The ids among `ids` of existing sales still open at `now`, in order.
pub open spec fn open_sales(c: KatherineSaleContract, ids: Seq<u32>, now: u64) -> Seq<u32>
    decreases ids.len(),
{
    if ids.len() == 0 {
        Seq::empty()
    } else {
        let rest = open_sales(c, ids.drop_last(), now);
        let id = ids.last();
        if id < c.sales@.len() && now < c.sales@[id as int]@.close {
            rest.push(id)
        } else {
            rest
        }
    }
}

/// The page of `ids` starting at `from` with at most `limit` items.
pub open spec fn page(ids: Seq<u32>, from: u32, limit: u32) -> Seq<u32> {
    if from < ids.len() {
        ids.subrange(from as int, page_end(from, limit, ids.len()))
    } else {
        Seq::empty()
    }
}

impl KatherineSaleContract {
    /// Every record is well formed, each sale sits at the index of its id,
    /// and every account with a claim in a sale has that sale among its positions.
    pub open spec fn wf(&self) -> bool {
        &&& self.records_wf()
        &&& forall|i: int, k: Seq<char>|
            0 <= i < self.sales@.len() && (#[trigger] self.sales@[i]@.claimable.contains_key(k))
                ==> sales_of(self.buyers@, k).contains(i as u32)
    }

    /// Every record is well formed and each sale sits at the index of its id.
    pub open spec fn records_wf(&self) -> bool {
        &&& self.buyers.wf()
        &&& forall|k: Seq<char>| #[trigger] self.buyers@.contains_key(k) ==> self.buyers@[k].wf()
        &&& forall|k: Seq<char>, id: u32|
            #[trigger] self.buyers@.contains_key(k) && #[trigger] self.buyers@[k]@.contains(id) ==> id
                < self.sales@.len()
        &&& self.sales@.len() <= u32::MAX
        &&& forall|i: int|
            0 <= i < self.sales@.len() ==> (#[trigger] self.sales@[i]).wf() && self.sales@[i].id
                == i
        &&& self.active_sales@.no_duplicates()
        &&& forall|j: int|
            0 <= j < self.active_sales@.len() ==> #[trigger] self.active_sales@[j]
                < self.sales@.len()
        &&& self.sale_fee < BASIS_POINT
        &&& self.payment_token_unit > 0
    }

    /// A registry with no sale and no buyer.
    pub fn new(
        owner_id: String,
        min_deposit_amount_in_near: u128,
        min_deposit_amount_in_payment_token: u128,
        payment_token_contract_address: String,
        payment_token_unit: u128,
        treasury_id: String,
        sale_fee: BasisPoints,
    ) -> (r: Self)
        requires
            sale_fee < BASIS_POINT,
            payment_token_unit > 0,
        ensures
            r.wf(),
            r.owner_id == owner_id,
            r.buyers@ == Map::<Seq<char>, Buyer>::empty(),
            r.sales@.len() == 0,
            r.active_sales@.len() == 0,
            r.min_deposit_amount_in_near == min_deposit_amount_in_near,
            r.min_deposit_amount_in_payment_token == min_deposit_amount_in_payment_token,
            r.payment_token_contract_address == payment_token_contract_address,
            r.payment_token_unit == payment_token_unit,
            r.treasury_id == treasury_id,
            r.sale_fee == sale_fee,
    {
        KatherineSaleContract {
            owner_id,
            buyers: AccountMap::new(),
            sales: Vec::new(),
            active_sales: Vec::new(),
            min_deposit_amount_in_near,
            min_deposit_amount_in_payment_token,
            payment_token_contract_address,
            payment_token_unit,
            sale_fee,
            treasury_id,
        }
    }

    /// Rejects a caller other than the owner.
    pub fn assert_only_owner(&self, caller: &String) -> (r: Result<(), SaleError>)
        ensures
            r == (if caller@ == self.owner_id@ {
                Ok(())
            } else {
                Err(SaleError::Authorization)
            }),
    {
        if *caller == self.owner_id {
            Ok(())
        } else {
            Err(SaleError::Authorization)
        }
    }

    /// The owner hands ownership to `new_value`.
    pub fn update_owner_id(&mut self, caller: &String, new_value: String) -> (r: Result<
        (),
        SaleError,
    >)
        ensures
            r is Err ==> *final(self) == *old(self),
            r == (if caller@ == old(self).owner_id@ {
                Ok(())
            } else {
                Err(SaleError::Authorization)
            }),
            r is Ok ==> *final(self) == (KatherineSaleContract { owner_id: new_value, ..*old(self) }),
    {
        if let Err(e) = self.assert_only_owner(caller) {
            return Err(e);
        }
        self.owner_id = new_value;
        Ok(())
    }

    /// The owner sets the receiver of payments and fees.
    pub fn update_treasury_id(&mut self, caller: &String, new_value: String) -> (r: Result<
        (),
        SaleError,
    >)
        ensures
            r is Err ==> *final(self) == *old(self),
            r == (if caller@ == old(self).owner_id@ {
                Ok(())
            } else {
                Err(SaleError::Authorization)
            }),
            r is Ok ==> *final(self) == (KatherineSaleContract {
                treasury_id: new_value,
                ..*old(self)
            }),
    {
        if let Err(e) = self.assert_only_owner(caller) {
            return Err(e);
        }
        self.treasury_id = new_value;
        Ok(())
    }

    /// The owner sets the minimum NEAR payment of future sales.
    pub fn update_min_deposit_amount_in_near(&mut self, caller: &String, new_value: u128) -> (r:
        Result<(), SaleError>)
        ensures
            r is Err ==> *final(self) == *old(self),
            r == (if caller@ == old(self).owner_id@ {
                Ok(())
            } else {
                Err(SaleError::Authorization)
            }),
            r is Ok ==> *final(self) == (KatherineSaleContract {
                min_deposit_amount_in_near: new_value,
                ..*old(self)
            }),
    {
        if let Err(e) = self.assert_only_owner(caller) {
            return Err(e);
        }
        self.min_deposit_amount_in_near = new_value;
        Ok(())
    }

    /// The owner sets the minimum payment-token payment of future sales.
    pub fn update_min_deposit_amount_in_payment_token(
        &mut self,
        caller: &String,
        new_value: u128,
    ) -> (r: Result<(), SaleError>)
        ensures
            r is Err ==> *final(self) == *old(self),
            r == (if caller@ == old(self).owner_id@ {
                Ok(())
            } else {
                Err(SaleError::Authorization)
            }),
            r is Ok ==> *final(self) == (KatherineSaleContract {
                min_deposit_amount_in_payment_token: new_value,
                ..*old(self)
            }),
    {
        if let Err(e) = self.assert_only_owner(caller) {
            return Err(e);
        }
        self.min_deposit_amount_in_payment_token = new_value;
        Ok(())
    }

    /// The owner sets the payment token of future sales.
    pub fn update_payment_token_contract_address(&mut self, caller: &String, new_value: String) -> (r:
        Result<(), SaleError>)
        ensures
            r is Err ==> *final(self) == *old(self),
            r == (if caller@ == old(self).owner_id@ {
                Ok(())
            } else {
                Err(SaleError::Authorization)
            }),
            r is Ok ==> *final(self) == (KatherineSaleContract {
                payment_token_contract_address: new_value,
                ..*old(self)
            }),
    {
        if let Err(e) = self.assert_only_owner(caller) {
            return Err(e);
        }
        self.payment_token_contract_address = new_value;
        Ok(())
    }

    /// The owner sets the payment-token unit of future sales; it must be positive.
    pub fn update_payment_token_unit(&mut self, caller: &String, new_value: u128) -> (r: Result<
        (),
        SaleError,
    >)
        requires
            old(self).wf(),
        ensures
            final(self).wf(),
            r is Err ==> *final(self) == *old(self),
            r == (if caller@ != old(self).owner_id@ {
                Err(SaleError::Authorization)
            } else if new_value == 0 {
                Err(SaleError::InvalidSetting)
            } else {
                Ok(())
            }),
            r is Ok ==> *final(self) == (KatherineSaleContract {
                payment_token_unit: new_value,
                ..*old(self)
            }),
    {
        if let Err(e) = self.assert_only_owner(caller) {
            return Err(e);
        }
        if new_value == 0 {
            return Err(SaleError::InvalidSetting);
        }
        self.payment_token_unit = new_value;
        Ok(())
    }

    /// The owner sets the fee of future sales; it must be below 10_000 basis points.
    pub fn update_default_sales_fee(&mut self, caller: &String, new_value: BasisPoints) -> (r:
        Result<(), SaleError>)
        requires
            old(self).wf(),
        ensures
            final(self).wf(),
            r is Err ==> *final(self) == *old(self),
            r == (if caller@ != old(self).owner_id@ {
                Err(SaleError::Authorization)
            } else if new_value >= BASIS_POINT {
                Err(SaleError::InvalidSetting)
            } else {
                Ok(())
            }),
            r is Ok ==> *final(self) == (KatherineSaleContract { sale_fee: new_value, ..*old(self) }),
    {
        if let Err(e) = self.assert_only_owner(caller) {
            return Err(e);
        }
        if !check_basis_points(new_value) {
            return Err(SaleError::InvalidSetting);
        }
        self.sale_fee = new_value;
        Ok(())
    }

    /// Id of the sale named `slug`, if there is one.
    pub fn get_sale_id_from_slug(&self, slug: &String) -> (r: Option<u32>)
        requires
            self.wf(),
        ensures
            match r {
                Some(id) => id < self.sales@.len() && self.sales@[id as int].slug@ == slug@,
                None => !slug_taken(self.sales@, slug@),
            },
    {
        let mut i: usize = 0;
        while i < self.sales.len()
            invariant
                self.wf(),
                i <= self.sales@.len(),
                forall|j: int| 0 <= j < i ==> self.sales@[j].slug@ != slug@,
            decreases self.sales@.len() - i,
        {
            if self.sales[i].slug == *slug {
                return Some(i as u32);
            }
            i = i + 1;
        }
        None
    }

    /// Rejects a slug that another sale already uses.
    pub fn assert_unique_slug(&self, slug: &String) -> (r: Result<(), SaleError>)
        requires
            self.wf(),
        ensures
            r == (if slug_taken(self.sales@, slug@) {
                Err(SaleError::DuplicateSlug)
            } else {
                Ok(())
            }),
    {
        match self.get_sale_id_from_slug(slug) {
            Some(_) => Err(SaleError::DuplicateSlug),
            None => Ok(()),
        }
    }

    /// The owner opens a sale of `max_available_sold_token` sold token at
    /// `one_payment_token_purchase_rate` sold units per payment unit, paid in
    /// NEAR or in the default payment token, with the current defaults.
    /// The attached bond must pay for storage and the dates must be in the
    /// future and strictly increasing.
    pub fn create_sale(
        &mut self,
        caller: &String,
        attached_deposit: u128,
        now: EpochMillis,
        slug: String,
        is_in_near: bool,
        sold_token_contract_address: String,
        one_payment_token_purchase_rate: u128,
        max_available_sold_token: u128,
        open_date_timestamp: EpochMillis,
        close_date_timestamp: EpochMillis,
        release_date_timestamp: EpochMillis,
    ) -> (r: Result<u32, SaleError>)
        requires
            old(self).wf(),
        ensures
            final(self).wf(),
            match create_sale_error(
                *old(self),
                caller@,
                attached_deposit,
                now,
                slug@,
                open_date_timestamp,
                close_date_timestamp,
                release_date_timestamp,
            ) {
                Some(e) => r == Err::<u32, SaleError>(e) && *final(self) == *old(self),
                None => {
                    &&& r == Ok::<u32, SaleError>(old(self).sales@.len() as u32)
                    &&& final(self).sales@.len() == old(self).sales@.len() + 1
                    &&& final(self).sales@.drop_last() == old(self).sales@
                    &&& final(self).sales@.last()@ == (SaleState {
                        id: old(self).sales@.len() as u32,
                        slug: slug@,
                        sold_token: sold_token_contract_address@,
                        payment_token: if is_in_near {
                            None
                        } else {
                            Some(old(self).payment_token_contract_address@)
                        },
                        rate: one_payment_token_purchase_rate,
                        unit: if is_in_near {
                            NEAR
                        } else {
                            old(self).payment_token_unit
                        },
                        min_deposit: if is_in_near {
                            old(self).min_deposit_amount_in_near
                        } else {
                            old(self).min_deposit_amount_in_payment_token
                        },
                        fee_bps: old(self).sale_fee,
                        max_available: max_available_sold_token,
                        required: 0,
                        total_payment: 0,
                        sold_for_buyers: 0,
                        total_fees: 0,
                        open: open_date_timestamp,
                        close: close_date_timestamp,
                        release: release_date_timestamp,
                        claimable: Map::empty(),
                        claimable_total: 0,
                        deposits: Map::empty(),
                        deposits_total: 0,
                    })
                    &&& final(self).active_sales@ == old(self).active_sales@.push(
                        old(self).sales@.len() as u32,
                    )
                    &&& final(self).buyers == old(self).buyers
                    &&& final(self).owner_id == old(self).owner_id
                },
            },
    {
        if let Err(e) = self.assert_only_owner(caller) {
            return Err(e);
        }
        if let Err(e) = self.assert_unique_slug(&slug) {
            return Err(e);
        }
        if let Err(e) = Sale::assert_storage_is_covered(attached_deposit) {
            return Err(e);
        }
        if self.sales.len() >= u32::MAX as usize {
            return Err(SaleError::Overflow);
        }
        let id = self.sales.len() as u32;
        let (min_deposit_amount, payment_token_contract_address, payment_token_unit) = if is_in_near {
            (self.min_deposit_amount_in_near, None, NEAR)
        } else {
            (
                self.min_deposit_amount_in_payment_token,
                Some(self.payment_token_contract_address.clone()),
                self.payment_token_unit,
            )
        };
        let sale = Sale::new(
            id,
            slug,
            sold_token_contract_address,
            one_payment_token_purchase_rate,
            max_available_sold_token,
            open_date_timestamp,
            close_date_timestamp,
            release_date_timestamp,
            min_deposit_amount,
            payment_token_contract_address,
            payment_token_unit,
            self.sale_fee,
        );
        if let Err(e) = sale.assert_input_timestamps(now) {
            return Err(e);
        }
        let ghost old_active = self.active_sales@;
        self.sales.push(sale);
        self.active_sales.push(id);
        proof {
            assert forall|a: int, b: int|
                0 <= a < b < self.active_sales@.len() implies self.active_sales@[a]
                != self.active_sales@[b] by {
                if b == old_active.len() {
                    assert(old_active[a] < id);
                } else {
                    assert(old_active[a] != old_active[b]);
                }
            }
        }
        proof {
            assert(self.sales@.drop_last() =~= old(self).sales@);
        }
        Ok(id)
    }
}

impl KatherineSaleContract {
    /// Records that `buyer_id` holds a position in sale `sale_id`.
    fn register_buyer(&mut self, buyer_id: &String, sale_id: u32)
        requires
            old(self).records_wf(),
            sale_id < old(self).sales@.len(),
        ensures
            final(self).records_wf(),
            buyer_joined(*old(self), *final(self), buyer_id@, sale_id),
            final(self).sales == old(self).sales,
            final(self).active_sales == old(self).active_sales,
            settings_kept(*old(self), *final(self)),
    {
        let mut buyer = match self.buyers.remove(buyer_id) {
            Some(b) => b,
            None => Buyer::new(),
        };
        buyer.insert(sale_id);
        self.buyers.insert(buyer_id.clone(), buyer);
        proof {
            assert(self.buyers@ =~= old(self).buyers@.insert(buyer_id@, self.buyers@[buyer_id@]));
        }
    }

    /// Records that `buyer_id` no longer holds a position in sale `sale_id`.
    fn unregister_buyer(&mut self, buyer_id: &String, sale_id: u32)
        requires
            old(self).records_wf(),
        ensures
            final(self).records_wf(),
            buyer_left(*old(self), *final(self), buyer_id@, sale_id),
            final(self).sales == old(self).sales,
            final(self).active_sales == old(self).active_sales,
            settings_kept(*old(self), *final(self)),
    {
        let mut buyer = match self.buyers.remove(buyer_id) {
            Some(b) => b,
            None => Buyer::new(),
        };
        buyer.remove(sale_id);
        self.buyers.insert(buyer_id.clone(), buyer);
        proof {
            assert(self.buyers@ =~= old(self).buyers@.insert(buyer_id@, self.buyers@[buyer_id@]));
        }
    }

    /// Processes a payment of `amount` by `buyer_id` into sale `sale_id`
    /// (NEAR or the sale's payment token) and registers the buyer.
    pub fn process_payment_tokens_deposit(
        &mut self,
        buyer_id: &String,
        amount: u128,
        sale_id: u32,
        now: EpochMillis,
    ) -> (r: Result<(), SaleError>)
        requires
            old(self).wf(),
            sale_id < old(self).sales@.len(),
        ensures
            final(self).wf(),
            deposit_outcome(*old(self), *final(self), buyer_id@, amount, sale_id, now, r),
    {
        let idx = sale_id as usize;
        if let Err(e) = self.sales[idx].check_deposit(buyer_id, amount, now) {
            return Err(e);
        }
        let ghost before = *self;
        let _ = self.sales[idx].deposit_payment(buyer_id, amount, now);
        proof {
            assert forall|j: int| 0 <= j < self.sales@.len() implies (#[trigger] self.sales@[j]).wf()
                && self.sales@[j].id == j by {
                if j != idx {
                    assert(self.sales@[j] == before.sales@[j]);
                }
            }
        }
        self.register_buyer(buyer_id, sale_id);
        Ok(())
    }

    /// Processes the seller's deposit of `amount` sold token into sale `sale_id`.
    pub fn process_sold_tokens_deposit(&mut self, amount: u128, sale_id: u32, now: EpochMillis) -> (r:
        Result<(), SaleError>)
        requires
            old(self).wf(),
            sale_id < old(self).sales@.len(),
        ensures
            final(self).wf(),
            fund_outcome(*old(self), *final(self), amount, sale_id, now, r),
    {
        let idx = sale_id as usize;
        if now >= self.sales[idx].release_date_timestamp {
            return Err(SaleError::Stage);
        }
        if amount > u128::MAX - self.sales[idx].sold_tokens_for_buyers {
            return Err(SaleError::Overflow);
        }
        let ghost before = *self;
        let _ = self.sales[idx].deposit_sold_tokens(amount, now);
        proof {
            assert forall|j: int| 0 <= j < self.sales@.len() implies (#[trigger] self.sales@[j]).wf()
                && self.sales@[j].id == j by {
                if j != idx {
                    assert(self.sales@[j] == before.sales@[j]);
                }
            }
        }
        Ok(())
    }

    /// `caller` pays `amount` NEAR into sale `sale_id`, which must be paid in NEAR.
    pub fn purchase_token_with_near(
        &mut self,
        caller: &String,
        sale_id: u32,
        amount: u128,
        now: EpochMillis,
    ) -> (r: Result<(), SaleError>)
        requires
            old(self).wf(),
        ensures
            final(self).wf(),
            sale_id >= old(self).sales@.len() ==> r == Err::<(), SaleError>(SaleError::UnknownSale)
                && *final(self) == *old(self),
            sale_id < old(self).sales@.len() && old(self).sales@[sale_id as int]@.payment_token is Some
                ==> r == Err::<(), SaleError>(SaleError::UnknownAsset) && *final(self) == *old(self),
            sale_id < old(self).sales@.len() && old(self).sales@[sale_id as int]@.payment_token is None
                ==> deposit_outcome(*old(self), *final(self), caller@, amount, sale_id, now, r),
    {
        if sale_id as usize >= self.sales.len() {
            return Err(SaleError::UnknownSale);
        }
        if !self.sales[sale_id as usize].is_near_accepted() {
            return Err(SaleError::UnknownAsset);
        }
        self.process_payment_tokens_deposit(caller, amount, sale_id, now)
    }

    /// A token transfer of `amount` arrived from token contract `predecessor`
    /// on behalf of `sender_id`, with the sale id as `msg`. The sale's sold
    /// token funds the sale; its payment token is a buyer's payment; any other
    /// token is refused. On success nothing is returned unused (`Ok(0)`).
    pub fn ft_on_transfer(
        &mut self,
        predecessor: &String,
        sender_id: &String,
        amount: u128,
        msg: &String,
        now: EpochMillis,
    ) -> (r: Result<u128, SaleError>)
        requires
            old(self).wf(),
        ensures
            final(self).wf(),
            r is Ok ==> r == Ok::<u128, SaleError>(0),
            match parse_u32_spec(msg@) {
                None => r == Err::<u128, SaleError>(SaleError::InvalidSaleId) && *final(self)
                    == *old(self),
                Some(id) => if id >= old(self).sales@.len() {
                    r == Err::<u128, SaleError>(SaleError::UnknownSale) && *final(self) == *old(self)
                } else if predecessor@ == old(self).sales@[id as int]@.sold_token {
                    fund_outcome(*old(self), *final(self), amount, id, now, discard_value(r))
                } else if old(self).sales@[id as int]@.payment_token == Some(predecessor@) {
                    deposit_outcome(
                        *old(self),
                        *final(self),
                        sender_id@,
                        amount,
                        id,
                        now,
                        discard_value(r),
                    )
                } else {
                    r == Err::<u128, SaleError>(SaleError::UnknownAsset) && *final(self) == *old(
                        self,
                    )
                },
            },
    {
        let sale_id = match parse_u32(msg.as_str()) {
            Some(id) => id,
            None => {
                return Err(SaleError::InvalidSaleId);
            },
        };
        if sale_id as usize >= self.sales.len() {
            return Err(SaleError::UnknownSale);
        }
        let idx = sale_id as usize;
        let result = if *predecessor == self.sales[idx].sold_token_contract_address {
            self.process_sold_tokens_deposit(amount, sale_id, now)
        } else {
            let accepted = match &self.sales[idx].payment_config.payment_token_contract_address {
                Some(t) => *t == *predecessor,
                None => false,
            };
            if !accepted {
                return Err(SaleError::UnknownAsset);
            }
            self.process_payment_tokens_deposit(sender_id, amount, sale_id, now)
        };
        match result {
            Ok(()) => Ok(0),
            Err(e) => Err(e),
        }
    }
}

impl KatherineSaleContract {
    proof fn lemma_sale_replaced(&self, before: KatherineSaleContract, idx: int)
        requires
            before.wf(),
            0 <= idx < before.sales@.len(),
            self.sales@.len() == before.sales@.len(),
            self.sales@[idx].wf(),
            self.sales@[idx].id == idx,
            forall|j: int| 0 <= j < before.sales@.len() && j != idx ==> self.sales@[j] == before.sales@[j],
        ensures
            forall|j: int|
                0 <= j < self.sales@.len() ==> (#[trigger] self.sales@[j]).wf() && self.sales@[j].id
                    == j,
    {
        assert forall|j: int| 0 <= j < self.sales@.len() implies (#[trigger] self.sales@[j]).wf()
            && self.sales@[j].id == j by {
            if j != idx {
                assert(self.sales@[j] == before.sales@[j]);
            }
        }
    }

    /// Drops sale `sale_id` from the active index.
    pub fn remove_sale_from_active_list(&mut self, sale_id: u32)
        requires
            old(self).wf(),
        ensures
            final(self).wf(),
            active_removed(*old(self), *final(self), sale_id),
            final(self).sales == old(self).sales,
            final(self).buyers == old(self).buyers,
            settings_kept(*old(self), *final(self)),
    {
        let mut i: usize = 0;
        while i < self.active_sales.len()
            invariant
                self == old(self),
                self.wf(),
                i <= self.active_sales@.len(),
                forall|j: int| 0 <= j < i ==> self.active_sales@[j] != sale_id,
            decreases self.active_sales@.len() - i,
        {
            if self.active_sales[i] == sale_id {
                let ghost a = self.active_sales@;
                self.active_sales.remove(i);
                proof {
                    let b = self.active_sales@;
                    assert(b =~= a.remove(i as int));
                    assert forall|x: u32| #[trigger] b.contains(x) <==> (a.contains(x) && x != sale_id) by {
                        if a.contains(x) && x != sale_id {
                            let k = choose|k: int| 0 <= k < a.len() && a[k] == x;
                            if k < i {
                                assert(b[k] == x);
                            } else {
                                assert(b[k - 1] == x);
                            }
                        }
                        if b.contains(x) {
                            let k = choose|k: int| 0 <= k < b.len() && b[k] == x;
                            if k < i {
                                assert(a[k] == x);
                            } else {
                                assert(a[k + 1] == x);
                            }
                        }
                    }
                    assert forall|p: int, q: int| 0 <= p < q < b.len() implies b[p] != b[q] by {
                        let p2 = if p < i { p } else { p + 1 };
                        let q2 = if q < i { q } else { q + 1 };
                        assert(a[p2] != a[q2]);
                    }
                    assert forall|j: int| 0 <= j < b.len() implies #[trigger] b[j] < self.sales@.len() by {
                        let j2 = if j < i { j } else { j + 1 };
                        assert(a[j2] < self.sales@.len());
                    }
                }
                return;
            }
            i = i + 1;
        }
        proof {
            assert forall|x: u32| #[trigger] self.active_sales@.contains(x) <==> (
            old(self).active_sales@.contains(x) && x != sale_id) by {
                if self.active_sales@.contains(x) && x == sale_id {
                    let k = choose|k: int|
                        0 <= k < self.active_sales@.len() && self.active_sales@[k] == x;
                    assert(self.active_sales@[k] != sale_id);
                }
            }
        }
    }

    /// After the release date `caller` withdraws everything from sale
    /// `sale_id`: the claimed sold token when the sale is covered, otherwise
    /// a refund of the deposit. Returns the transfer to perform.
    pub fn withdraw_tokens(&mut self, caller: &String, sale_id: u32, now: EpochMillis) -> (r:
        Result<Transfer, SaleError>)
        requires
            old(self).wf(),
        ensures
            final(self).wf(),
            withdraw_outcome(*old(self), *final(self), caller@, sale_id, now, r),
    {
        if sale_id as usize >= self.sales.len() {
            return Err(SaleError::UnknownSale);
        }
        let idx = sale_id as usize;
        if let Err(e) = self.sales[idx].check_withdraw(caller, now) {
            return Err(e);
        }
        let ghost before = *self;
        let w = match self.sales[idx].withdraw_buyer(caller, now) {
            Ok(w) => w,
            Err(_) => BuyerWithdrawal { claimable: 0, deposit: 0, paid_in_sold_token: false },
        };
        proof {
            self.lemma_sale_replaced(before, idx as int);
        }
        self.unregister_buyer(caller, sale_id);
        if w.paid_in_sold_token {
            Ok(self.internal_buyer_withdraw_sold_tokens(caller, w.claimable, w.deposit, sale_id))
        } else {
            Ok(self.internal_buyer_withdraw_payment_token(caller, w.claimable, w.deposit, sale_id))
        }
    }

    /// Transfer of `claimable` sold token of sale `sale_id` to `buyer_id`.
    fn internal_buyer_withdraw_sold_tokens(
        &self,
        buyer_id: &String,
        claimable: u128,
        deposit: u128,
        sale_id: u32,
    ) -> (r: Transfer)
        requires
            sale_id < self.sales@.len(),
        ensures
            r.receiver_id@ == buyer_id@,
            option_view(r.token_id) == Some(self.sales@[sale_id as int]@.sold_token),
            r.amount == claimable,
            is_buyer_resolution(r.resolution, buyer_id@, sale_id, claimable, deposit, true),
    {
        Transfer {
            token_id: Some(self.sales[sale_id as usize].get_sold_token()),
            receiver_id: buyer_id.clone(),
            amount: claimable,
            resolution: Resolution::BuyerSoldTokens {
                buyer_id: buyer_id.clone(),
                sale_id,
                claimable,
                deposit,
            },
        }
    }

    /// Refund of `deposit` in the payment asset of sale `sale_id` to `buyer_id`.
    fn internal_buyer_withdraw_payment_token(
        &self,
        buyer_id: &String,
        claimable: u128,
        deposit: u128,
        sale_id: u32,
    ) -> (r: Transfer)
        requires
            sale_id < self.sales@.len(),
        ensures
            r.receiver_id@ == buyer_id@,
            option_view(r.token_id) == self.sales@[sale_id as int]@.payment_token,
            r.amount == deposit,
            is_buyer_resolution(r.resolution, buyer_id@, sale_id, claimable, deposit, false),
    {
        let token_id = if self.sales[sale_id as usize].is_near_accepted() {
            None
        } else {
            Some(self.sales[sale_id as usize].get_payment_token())
        };
        Transfer {
            token_id,
            receiver_id: buyer_id.clone(),
            amount: deposit,
            resolution: Resolution::BuyerPaymentTokens {
                buyer_id: buyer_id.clone(),
                sale_id,
                claimable,
                deposit,
            },
        }
    }

    /// Report on a transfer of sold token to a buyer.
    pub fn buyer_withdraw_sold_tokens_resolve(
        &mut self,
        buyer_id: &String,
        claimable: u128,
        deposit: u128,
        sale_id: u32,
        succeeded: bool,
    ) -> (r: Result<(), SaleError>)
        requires
            old(self).wf(),
        ensures
            final(self).wf(),
            buyer_resolve_outcome(
                *old(self),
                *final(self),
                buyer_id@,
                claimable,
                deposit,
                sale_id,
                true,
                succeeded,
                r,
            ),
    {
        self.resolve_buyer_transfer(buyer_id, claimable, deposit, sale_id, true, succeeded)
    }

    /// Report on a refund of a buyer's payment.
    pub fn buyer_withdraw_payment_tokens_resolve(
        &mut self,
        buyer_id: &String,
        claimable: u128,
        deposit: u128,
        sale_id: u32,
        succeeded: bool,
    ) -> (r: Result<(), SaleError>)
        requires
            old(self).wf(),
        ensures
            final(self).wf(),
            buyer_resolve_outcome(
                *old(self),
                *final(self),
                buyer_id@,
                claimable,
                deposit,
                sale_id,
                false,
                succeeded,
                r,
            ),
    {
        self.resolve_buyer_transfer(buyer_id, claimable, deposit, sale_id, false, succeeded)
    }

    fn resolve_buyer_transfer(
        &mut self,
        buyer_id: &String,
        claimable: u128,
        deposit: u128,
        sale_id: u32,
        paid_in_sold_token: bool,
        succeeded: bool,
    ) -> (r: Result<(), SaleError>)
        requires
            old(self).wf(),
        ensures
            final(self).wf(),
            buyer_resolve_outcome(
                *old(self),
                *final(self),
                buyer_id@,
                claimable,
                deposit,
                sale_id,
                paid_in_sold_token,
                succeeded,
                r,
            ),
    {
        if succeeded {
            let empty = match self.buyers.get(buyer_id) {
                Some(b) => b.is_empty(),
                None => false,
            };
            if empty {
                let _ = self.buyers.remove(buyer_id);
            }
            return Ok(());
        }
        if sale_id as usize >= self.sales.len() {
            return Err(SaleError::UnknownSale);
        }
        let idx = sale_id as usize;
        if let Err(e) = self.sales[idx].check_restore_buyer(
            buyer_id,
            claimable,
            deposit,
            paid_in_sold_token,
        ) {
            return Err(e);
        }
        let ghost before = *self;
        let _ = self.sales[idx].restore_buyer(buyer_id, claimable, deposit, paid_in_sold_token);
        proof {
            self.lemma_sale_replaced(before, idx as int);
        }
        self.register_buyer(buyer_id, sale_id);
        Ok(())
    }

    /// Payment asset of sale `sale_id`: its token, or `None` for NEAR.
    fn payment_asset(&self, sale_id: u32) -> (r: Option<String>)
        requires
            sale_id < self.sales@.len(),
        ensures
            option_view(r) == self.sales@[sale_id as int]@.payment_token,
    {
        if self.sales[sale_id as usize].is_near_accepted() {
            None
        } else {
            Some(self.sales[sale_id as usize].get_payment_token())
        }
    }

    /// After the close date the owner collects the payments of a covered
    /// sale: the fee is withheld and the rest goes to the treasury. The sale
    /// leaves the active index.
    pub fn collect_payments(&mut self, caller: &String, sale_id: u32, now: EpochMillis) -> (r:
        Result<Transfer, SaleError>)
        requires
            old(self).wf(),
        ensures
            final(self).wf(),
            owner_op_error(*old(self), caller@, sale_id) matches Some(e) ==> r == Err::<
                Transfer,
                SaleError,
            >(e) && *final(self) == *old(self),
            owner_op_error(*old(self), caller@, sale_id) is None ==> match collect_payments_error(
                old(self).sales@[sale_id as int]@,
                now,
            ) {
                Some(e) => r == Err::<Transfer, SaleError>(e) && *final(self) == *old(self),
                None => {
                    let s = old(self).sales@[sale_id as int]@;
                    let net = (s.total_payment - payment_fee(s)) as u128;
                    &&& sale_updated(*old(self), *final(self), sale_id as int, collect_payments_state(s))
                    &&& final(self).buyers == old(self).buyers
                    &&& settings_kept(*old(self), *final(self))
                    &&& active_removed(*old(self), *final(self), sale_id)
                    &&& r is Ok
                    &&& option_view(r->Ok_0.token_id) == s.payment_token
                    &&& r->Ok_0.receiver_id == old(self).treasury_id
                    &&& r->Ok_0.amount == net
                    &&& r->Ok_0.resolution matches Resolution::SellerPayments { sale_id: i, amount: a }
                        && i == sale_id && a == net
                },
            },
    {
        if let Err(e) = self.assert_only_owner(caller) {
            return Err(e);
        }
        if sale_id as usize >= self.sales.len() {
            return Err(SaleError::UnknownSale);
        }
        let idx = sale_id as usize;
        if let Err(e) = self.sales[idx].check_collect_payments(now) {
            return Err(e);
        }
        self.remove_sale_from_active_list(sale_id);
        let ghost before = *self;
        let amount = match self.sales[idx].collect_payments(now) {
            Ok(v) => v,
            Err(_) => 0,
        };
        proof {
            self.lemma_sale_replaced(before, idx as int);
        }
        Ok(Transfer {
            token_id: self.payment_asset(sale_id),
            receiver_id: self.treasury_id.clone(),
            amount,
            resolution: Resolution::SellerPayments { sale_id, amount },
        })
    }

    /// After the close date the owner sends the withheld fee to the
    /// treasury. The sale leaves the active index.
    pub fn collect_fees(&mut self, caller: &String, sale_id: u32, now: EpochMillis) -> (r: Result<
        Transfer,
        SaleError,
    >)
        requires
            old(self).wf(),
        ensures
            final(self).wf(),
            owner_op_error(*old(self), caller@, sale_id) matches Some(e) ==> r == Err::<
                Transfer,
                SaleError,
            >(e) && *final(self) == *old(self),
            owner_op_error(*old(self), caller@, sale_id) is None ==> match collect_fees_error(
                old(self).sales@[sale_id as int]@,
                now,
            ) {
                Some(e) => r == Err::<Transfer, SaleError>(e) && *final(self) == *old(self),
                None => {
                    let s = old(self).sales@[sale_id as int]@;
                    &&& sale_updated(*old(self), *final(self), sale_id as int, collect_fees_state(s))
                    &&& final(self).buyers == old(self).buyers
                    &&& settings_kept(*old(self), *final(self))
                    &&& active_removed(*old(self), *final(self), sale_id)
                    &&& r is Ok
                    &&& option_view(r->Ok_0.token_id) == s.payment_token
                    &&& r->Ok_0.receiver_id == old(self).treasury_id
                    &&& r->Ok_0.amount == s.total_fees
                    &&& r->Ok_0.resolution matches Resolution::SellerFees { sale_id: i, amount: a }
                        && i == sale_id && a == s.total_fees
                },
            },
    {
        if let Err(e) = self.assert_only_owner(caller) {
            return Err(e);
        }
        if sale_id as usize >= self.sales.len() {
            return Err(SaleError::UnknownSale);
        }
        let idx = sale_id as usize;
        if let Err(e) = self.sales[idx].check_collect_fees(now) {
            return Err(e);
        }
        self.remove_sale_from_active_list(sale_id);
        let ghost before = *self;
        let amount = match self.sales[idx].collect_fees(now) {
            Ok(v) => v,
            Err(_) => 0,
        };
        proof {
            self.lemma_sale_replaced(before, idx as int);
        }
        Ok(Transfer {
            token_id: self.payment_asset(sale_id),
            receiver_id: self.treasury_id.clone(),
            amount,
            resolution: Resolution::SellerFees { sale_id, amount },
        })
    }

    /// After the close date the owner takes back the sold token not needed
    /// for the claims (all of it once a sale is still uncovered at release).
    /// The sale leaves the active index.
    pub fn withdraw_excess_sold_tokens(
        &mut self,
        caller: &String,
        sale_id: u32,
        now: EpochMillis,
    ) -> (r: Result<Transfer, SaleError>)
        requires
            old(self).wf(),
        ensures
            final(self).wf(),
            owner_op_error(*old(self), caller@, sale_id) matches Some(e) ==> r == Err::<
                Transfer,
                SaleError,
            >(e) && *final(self) == *old(self),
            owner_op_error(*old(self), caller@, sale_id) is None ==> match excess_error(
                old(self).sales@[sale_id as int]@,
                now,
            ) {
                Some(e) => r == Err::<Transfer, SaleError>(e) && *final(self) == *old(self),
                None => {
                    let s = old(self).sales@[sale_id as int]@;
                    &&& sale_updated(*old(self), *final(self), sale_id as int, withdraw_excess_state(s))
                    &&& final(self).buyers == old(self).buyers
                    &&& settings_kept(*old(self), *final(self))
                    &&& active_removed(*old(self), *final(self), sale_id)
                    &&& r is Ok
                    &&& option_view(r->Ok_0.token_id) == Some(s.sold_token)
                    &&& r->Ok_0.receiver_id == old(self).owner_id
                    &&& r->Ok_0.amount == excess_of(s)
                    &&& r->Ok_0.resolution matches Resolution::SellerExcess { sale_id: i, excess: a }
                        && i == sale_id && a == excess_of(s)
                },
            },
    {
        if let Err(e) = self.assert_only_owner(caller) {
            return Err(e);
        }
        if sale_id as usize >= self.sales.len() {
            return Err(SaleError::UnknownSale);
        }
        let idx = sale_id as usize;
        if let Err(e) = self.sales[idx].check_withdraw_excess(now) {
            return Err(e);
        }
        self.remove_sale_from_active_list(sale_id);
        let ghost before = *self;
        let excess = match self.sales[idx].withdraw_excess(now) {
            Ok(v) => v,
            Err(_) => 0,
        };
        proof {
            self.lemma_sale_replaced(before, idx as int);
        }
        Ok(Transfer {
            token_id: Some(self.sales[idx].get_sold_token()),
            receiver_id: self.owner_id.clone(),
            amount: excess,
            resolution: Resolution::SellerExcess { sale_id, excess },
        })
    }

    /// Report on a transfer of net payments to the treasury.
    pub fn seller_withdraw_payment_tokens_resolve(
        &mut self,
        amount: u128,
        sale_id: u32,
        succeeded: bool,
    ) -> (r: Result<(), SaleError>)
        requires
            old(self).wf(),
        ensures
            final(self).wf(),
            seller_resolve_outcome(
                *old(self),
                *final(self),
                sale_id,
                succeeded,
                sale_id < old(self).sales@.len() && restore_payments_error(
                    old(self).sales@[sale_id as int]@,
                    amount,
                ) is Some,
                restore_payments_state(old(self).sales@[sale_id as int]@, amount),
                r,
            ),
    {
        if succeeded {
            return Ok(());
        }
        if sale_id as usize >= self.sales.len() {
            return Err(SaleError::UnknownSale);
        }
        let idx = sale_id as usize;
        if let Err(e) = self.sales[idx].check_restore_payments(amount) {
            return Err(e);
        }
        let ghost before = *self;
        let _ = self.sales[idx].restore_payments(amount);
        proof {
            self.lemma_sale_replaced(before, idx as int);
        }
        Ok(())
    }

    /// Report on a transfer of the withheld fee to the treasury.
    pub fn seller_withdraw_fee_resolve(&mut self, amount: u128, sale_id: u32, succeeded: bool) -> (r:
        Result<(), SaleError>)
        requires
            old(self).wf(),
        ensures
            final(self).wf(),
            seller_resolve_outcome(
                *old(self),
                *final(self),
                sale_id,
                succeeded,
                false,
                restore_fees_state(old(self).sales@[sale_id as int]@, amount),
                r,
            ),
    {
        if succeeded {
            return Ok(());
        }
        if sale_id as usize >= self.sales.len() {
            return Err(SaleError::UnknownSale);
        }
        let idx = sale_id as usize;
        let ghost before = *self;
        self.sales[idx].restore_fees(amount);
        proof {
            self.lemma_sale_replaced(before, idx as int);
        }
        Ok(())
    }

    /// Report on a transfer of excess sold token to the owner.
    pub fn seller_withdraw_excess_sold_tokens_resolve(
        &mut self,
        excess: u128,
        sale_id: u32,
        succeeded: bool,
    ) -> (r: Result<(), SaleError>)
        requires
            old(self).wf(),
        ensures
            final(self).wf(),
            seller_resolve_outcome(
                *old(self),
                *final(self),
                sale_id,
                succeeded,
                sale_id < old(self).sales@.len() && restore_excess_error(
                    old(self).sales@[sale_id as int]@,
                    excess,
                ) is Some,
                fund_state(old(self).sales@[sale_id as int]@, excess),
                r,
            ),
    {
        if succeeded {
            return Ok(());
        }
        if sale_id as usize >= self.sales.len() {
            return Err(SaleError::UnknownSale);
        }
        let idx = sale_id as usize;
        if let Err(e) = self.sales[idx].check_restore_excess(excess) {
            return Err(e);
        }
        let ghost before = *self;
        let _ = self.sales[idx].restore_excess(excess);
        proof {
            self.lemma_sale_replaced(before, idx as int);
        }
        Ok(())
    }

    /// Report on any transfer that this contract requested: `succeeded` keeps
    /// the ledger change, a failure reverses exactly that change.
    pub fn resolve_transfer(&mut self, resolution: &Resolution, succeeded: bool) -> (r: Result<
        (),
        SaleError,
    >)
        requires
            old(self).wf(),
        ensures
            final(self).wf(),
            match *resolution {
                Resolution::BuyerSoldTokens { buyer_id, sale_id, claimable, deposit } =>
                    buyer_resolve_outcome(
                    *old(self),
                    *final(self),
                    buyer_id@,
                    claimable,
                    deposit,
                    sale_id,
                    true,
                    succeeded,
                    r,
                ),
                Resolution::BuyerPaymentTokens { buyer_id, sale_id, claimable, deposit } =>
                    buyer_resolve_outcome(
                    *old(self),
                    *final(self),
                    buyer_id@,
                    claimable,
                    deposit,
                    sale_id,
                    false,
                    succeeded,
                    r,
                ),
                Resolution::SellerPayments { sale_id, amount } => seller_resolve_outcome(
                    *old(self),
                    *final(self),
                    sale_id,
                    succeeded,
                    sale_id < old(self).sales@.len() && restore_payments_error(
                        old(self).sales@[sale_id as int]@,
                        amount,
                    ) is Some,
                    restore_payments_state(old(self).sales@[sale_id as int]@, amount),
                    r,
                ),
                Resolution::SellerFees { sale_id, amount } => seller_resolve_outcome(
                    *old(self),
                    *final(self),
                    sale_id,
                    succeeded,
                    false,
                    restore_fees_state(old(self).sales@[sale_id as int]@, amount),
                    r,
                ),
                Resolution::SellerExcess { sale_id, excess } => seller_resolve_outcome(
                    *old(self),
                    *final(self),
                    sale_id,
                    succeeded,
                    sale_id < old(self).sales@.len() && restore_excess_error(
                        old(self).sales@[sale_id as int]@,
                        excess,
                    ) is Some,
                    fund_state(old(self).sales@[sale_id as int]@, excess),
                    r,
                ),
            },
    {
        match resolution {
            Resolution::BuyerSoldTokens { buyer_id, sale_id, claimable, deposit } => {
                self.buyer_withdraw_sold_tokens_resolve(buyer_id, *claimable, *deposit, *sale_id, succeeded)
            },
            Resolution::BuyerPaymentTokens { buyer_id, sale_id, claimable, deposit } => {
                self.buyer_withdraw_payment_tokens_resolve(
                    buyer_id,
                    *claimable,
                    *deposit,
                    *sale_id,
                    succeeded,
                )
            },
            Resolution::SellerPayments { sale_id, amount } => {
                self.seller_withdraw_payment_tokens_resolve(*amount, *sale_id, succeeded)
            },
            Resolution::SellerFees { sale_id, amount } => {
                self.seller_withdraw_fee_resolve(*amount, *sale_id, succeeded)
            },
            Resolution::SellerExcess { sale_id, excess } => {
                self.seller_withdraw_excess_sold_tokens_resolve(*excess, *sale_id, succeeded)
            },
        }
    }


    /// Fee withheld from sale `sale_id` and not yet sent.
    pub fn get_sale_fee(&self, sale_id: u32) -> (r: Result<u128, SaleError>)
        ensures
            r == if sale_id < self.sales@.len() {
                Ok::<u128, SaleError>(self.sales@[sale_id as int]@.total_fees)
            } else {
                Err(SaleError::UnknownSale)
            },
    {
        if sale_id as usize >= self.sales.len() {
            return Err(SaleError::UnknownSale);
        }
        Ok(self.sales[sale_id as usize].total_fees)
    }

    /// The page of the active index starting at `from`, with at most `limit`
    /// entries, keeping only the sales still open at `now`.
    pub fn get_active_sales(&self, from_index: u32, limit: u32, now: EpochMillis) -> (r: Vec<
        SaleJSON,
    >)
        requires
            self.wf(),
        ensures
            r@.len() == open_sales(*self, page(self.active_sales@, from_index, limit), now).len(),
            forall|k: int|
                0 <= k < r@.len() ==> json_matches(
                    #[trigger] r@[k],
                    self.sales@[open_sales(*self, page(self.active_sales@, from_index, limit), now)[k] as int]@,
                    now,
                ),
    {
        let mut result: Vec<SaleJSON> = Vec::new();
        let len = self.active_sales.len();
        if from_index as usize >= len {
            return result;
        }
        let end: usize = if (from_index as u64) + (limit as u64) < len as u64 {
            (from_index as u64 + limit as u64) as usize
        } else {
            len
        };
        let ghost ids = page(self.active_sales@, from_index, limit);
        let mut index: usize = from_index as usize;
        while index < end
            invariant
                self.wf(),
                from_index <= index <= end,
                end == page_end(from_index, limit, self.active_sales@.len()),
                end <= self.active_sales@.len(),
                ids == self.active_sales@.subrange(from_index as int, end as int),
                result@.len() == open_sales(
                    *self,
                    self.active_sales@.subrange(from_index as int, index as int),
                    now,
                ).len(),
                forall|k: int|
                    0 <= k < result@.len() ==> json_matches(
                        #[trigger] result@[k],
                        self.sales@[open_sales(
                            *self,
                            self.active_sales@.subrange(from_index as int, index as int),
                            now,
                        )[k] as int]@,
                        now,
                    ),
            decreases end - index,
        {
            let ghost before = self.active_sales@.subrange(from_index as int, index as int);
            let ghost after = self.active_sales@.subrange(from_index as int, index as int + 1);
            proof {
                assert(after.drop_last() =~= before);
                assert(after.last() == self.active_sales@[index as int]);
            }
            let sale_id = self.active_sales[index];
            if (sale_id as usize) < self.sales.len() && self.sales[sale_id as usize].is_active(now) {
                result.push(self.sales[sale_id as usize].to_json(now));
            }
            index = index + 1;
        }
        result
    }

    /// Sale `sale_id` as shown to readers at `now`.
    pub fn get_sale(&self, sale_id: u32, now: EpochMillis) -> (r: Result<SaleJSON, SaleError>)
        ensures
            sale_id < self.sales@.len() ==> r is Ok && json_matches(
                r->Ok_0,
                self.sales@[sale_id as int]@,
                now,
            ),
            sale_id >= self.sales@.len() ==> r == Err::<SaleJSON, SaleError>(
                SaleError::UnknownSale,
            ),
    {
        if sale_id as usize >= self.sales.len() {
            return Err(SaleError::UnknownSale);
        }
        Ok(self.sales[sale_id as usize].to_json(now))
    }

    /// The sales with ids from `from_index`, at most `limit` of them, as shown at `now`.
    pub fn get_sales(&self, from_index: u32, limit: u32, now: EpochMillis) -> (r: Vec<SaleJSON>)
        requires
            self.wf(),
        ensures
            r@.len() == page(Seq::new(self.sales@.len(), |i: int| i as u32), from_index, limit).len(),
            forall|k: int|
                0 <= k < r@.len() ==> json_matches(
                    #[trigger] r@[k],
                    self.sales@[from_index + k]@,
                    now,
                ),
    {
        let mut result: Vec<SaleJSON> = Vec::new();
        let len = self.sales.len();
        if from_index as usize >= len {
            return result;
        }
        let end: usize = if (from_index as u64) + (limit as u64) < len as u64 {
            (from_index as u64 + limit as u64) as usize
        } else {
            len
        };
        let mut index: usize = from_index as usize;
        while index < end
            invariant
                self.wf(),
                from_index <= index <= end,
                end == page_end(from_index, limit, self.sales@.len()),
                end <= self.sales@.len(),
                result@.len() == index - from_index,
                forall|k: int|
                    0 <= k < result@.len() ==> json_matches(
                        #[trigger] result@[k],
                        self.sales@[from_index + k]@,
                        now,
                    ),
            decreases end - index,
        {
            result.push(self.sales[index].to_json(now));
            index = index + 1;
        }
        result
    }

    /// Ids of the sales in which `buyer_id` holds a position.
    pub fn get_buyer_sales(&self, buyer_id: &String) -> (r: Vec<u32>)
        requires
            self.wf(),
        ensures
            r@.no_duplicates(),
            forall|id: u32| r@.contains(id) <==> sales_of(self.buyers@, buyer_id@).contains(id),
    {
        match self.buyers.get(buyer_id) {
            Some(b) => b.sales(),
            None => Vec::new(),
        }
    }

    /// The page of `buyer_id`'s sales starting at `from_index`, with at most
    /// `limit` entries, as shown at `now`.
    pub fn get_buyer_sales_list(
        &self,
        buyer_id: &String,
        from_index: u32,
        limit: u32,
        now: EpochMillis,
    ) -> (r: Vec<SaleJSON>)
        requires
            self.wf(),
        ensures
            !self.buyers@.contains_key(buyer_id@) ==> r@.len() == 0,
            self.buyers@.contains_key(buyer_id@) ==> {
                let ids = page(self.buyers@[buyer_id@].list(), from_index, limit);
                &&& r@.len() == ids.len()
                &&& forall|k: int|
                    0 <= k < r@.len() ==> json_matches(
                        #[trigger] r@[k],
                        self.sales@[ids[k] as int]@,
                        now,
                    )
            },
    {
        let mut result: Vec<SaleJSON> = Vec::new();
        let sales = match self.buyers.get(buyer_id) {
            Some(b) => {
                proof {
                    b.lemma_list();
                }
                b.sales()
            },
            None => {
                return result;
            },
        };
        let len = sales.len();
        if from_index as usize >= len {
            return result;
        }
        let end: usize = if (from_index as u64) + (limit as u64) < len as u64 {
            (from_index as u64 + limit as u64) as usize
        } else {
            len
        };
        let mut index: usize = from_index as usize;
        while index < end
            invariant
                self.wf(),
                self.buyers@.contains_key(buyer_id@),
                sales@ == self.buyers@[buyer_id@].list(),
                forall|i: int| 0 <= i < sales@.len() ==> #[trigger] sales@[i] < self.sales@.len(),
                from_index <= index <= end,
                end == page_end(from_index, limit, sales@.len()),
                end <= sales@.len(),
                result@.len() == index - from_index,
                forall|k: int|
                    0 <= k < result@.len() ==> json_matches(
                        #[trigger] result@[k],
                        self.sales@[sales@[from_index + k] as int]@,
                        now,
                    ),
            decreases end - index,
        {
            let sale_id = sales[index];
            result.push(self.sales[sale_id as usize].to_json(now));
            index = index + 1;
        }
        result
    }

    /// The page of the buyer registry starting at `from_index`, with at most `limit` accounts.
    pub fn get_buyers(&self, from_index: u32, limit: u32) -> (r: Vec<String>)
        requires
            self.wf(),
        ensures
            r@.len() == page(Seq::new(self.buyers.list().len(), |i: int| i as u32), from_index, limit).len(),
            forall|k: int|
                0 <= k < r@.len() ==> (#[trigger] r@[k])@ == self.buyers.list()[from_index + k].0@,
            forall|k: int| 0 <= k < r@.len() ==> self.buyers@.contains_key((#[trigger] r@[k])@),
    {
        let keys = self.buyers.keys();
        let mut result: Vec<String> = Vec::new();
        let len = keys.len();
        if from_index as usize >= len {
            return result;
        }
        let end: usize = if (from_index as u64) + (limit as u64) < len as u64 {
            (from_index as u64 + limit as u64) as usize
        } else {
            len
        };
        let mut index: usize = from_index as usize;
        while index < end
            invariant
                keys@.len() == self.buyers.list().len(),
                forall|i: int| 0 <= i < keys@.len() ==> #[trigger] keys@[i]@ == self.buyers.list()[i].0@,
                forall|i: int| 0 <= i < keys@.len() ==> self.buyers@.contains_key(#[trigger] keys@[i]@),
                from_index <= index <= end,
                end == page_end(from_index, limit, keys@.len()),
                end <= keys@.len(),
                result@.len() == index - from_index,
                forall|k: int|
                    0 <= k < result@.len() ==> (#[trigger] result@[k])@ == keys@[from_index + k]@,
            decreases end - index,
        {
            result.push(keys[index].clone());
            index = index + 1;
        }
        proof {
            assert forall|k: int| 0 <= k < result@.len() implies self.buyers@.contains_key(
                (#[trigger] result@[k])@,
            ) by {
                assert(keys@[from_index + k]@ == result@[k]@);
            }
        }
        result
    }

    /// Number of sales ever created.
    pub fn get_number_of_sales(&self) -> (r: u32)
        requires
            self.wf(),
        ensures
            r == self.sales@.len(),
    {
        self.sales.len() as u32
    }

    /// Number of accounts in the buyer registry (saturating at `u32::MAX`).
    pub fn get_number_of_buyers(&self) -> (r: u32)
        requires
            self.wf(),
        ensures
            r == if self.buyers@.len() <= u32::MAX {
                self.buyers@.len()
            } else {
                u32::MAX as nat
            },
    {
        let n = self.buyers.len();
        if n <= u32::MAX as usize {
            n as u32
        } else {
            u32::MAX
        }
    }

    /// Number of buyers with a deposit in sale `sale_id` (saturating at `u32::MAX`).
    pub fn get_number_of_buyers_for_sale(&self, sale_id: u32) -> (r: Result<u32, SaleError>)
        requires
            self.wf(),
        ensures
            sale_id >= self.sales@.len() ==> r == Err::<u32, SaleError>(SaleError::UnknownSale),
            sale_id < self.sales@.len() ==> r == Ok::<u32, SaleError>(
                if self.sales@[sale_id as int]@.deposits.len() <= u32::MAX {
                    self.sales@[sale_id as int]@.deposits.len() as u32
                } else {
                    u32::MAX
                },
            ),
    {
        if sale_id as usize >= self.sales.len() {
            return Err(SaleError::UnknownSale);
        }
        let n = self.sales[sale_id as usize].deposits.len();
        if n <= u32::MAX as usize {
            Ok(n as u32)
        } else {
            Ok(u32::MAX)
        }
    }

    /// Sold token promised to `buyer_id` by sale `sale_id`.
    pub fn get_buyer_claimable_sold_token(&self, buyer_id: &String, sale_id: u32) -> (r: Result<
        u128,
        SaleError,
    >)
        requires
            self.wf(),
        ensures
            sale_id >= self.sales@.len() ==> r == Err::<u128, SaleError>(SaleError::UnknownSale),
            sale_id < self.sales@.len() ==> r == Ok::<u128, SaleError>(
                amount_of(self.sales@[sale_id as int]@.claimable, buyer_id@) as u128,
            ),
    {
        if sale_id as usize >= self.sales.len() {
            return Err(SaleError::UnknownSale);
        }
        Ok(self.sales[sale_id as usize].get_buyer_claimable_sold_token(buyer_id))
    }

    /// Payment made by `buyer_id` into sale `sale_id`.
    pub fn get_buyer_deposit(&self, buyer_id: &String, sale_id: u32) -> (r: Result<u128, SaleError>)
        requires
            self.wf(),
        ensures
            sale_id >= self.sales@.len() ==> r == Err::<u128, SaleError>(SaleError::UnknownSale),
            sale_id < self.sales@.len() ==> r == Ok::<u128, SaleError>(
                amount_of(self.sales@[sale_id as int]@.deposits, buyer_id@) as u128,
            ),
    {
        if sale_id as usize >= self.sales.len() {
            return Err(SaleError::UnknownSale);
        }
        Ok(self.sales[sale_id as usize].get_buyer_deposit(buyer_id))
    }

}

} // verus!
