use katherine_sale::contract::{KatherineSaleContract, Resolution, Transfer};
use katherine_sale::types::{SaleError, NEAR, STORAGE_PER_SALE};

const USDT_UNIT: u128 = 1_000_000;
const MIN_DEPOSIT_AMOUNT_IN_NEAR: u128 = 1 * NEAR;
const MIN_DEPOSIT_AMOUNT_IN_PAYMENT_TOKEN: u128 = 1 * USDT_UNIT;
const SALE_FEE: u32 = 250;

fn usdt_token_contract() -> String {
    "usdt.katherine.near".to_string()
}

fn sold_token_contract() -> String {
    "sold.katherine.near".to_string()
}

fn treasury_account() -> String {
    "treasury.katherine.near".to_string()
}

fn owner_account() -> String {
    "owner.katherine.near".to_string()
}

fn accounts(i: usize) -> String {
    ["alice.near", "bob.near", "charlie.near", "danny.near", "eugene.near", "fargo.near"][i]
        .to_string()
}

fn to_nanos(num_days: u64) -> u64 {
    num_days * 86400_000_000_000
}

fn nanos_to_millis(nanoseconds: u64) -> u64 {
    nanoseconds / 1_000_000
}

/// 2018-08-01 UTC plus `num_days`, in nanoseconds.
fn to_ts(num_days: u64) -> u64 {
    1533081600_000_000_000 + to_nanos(num_days)
}

fn ms(num_days: u64) -> u64 {
    nanos_to_millis(to_ts(num_days))
}

fn new_katherine_contract() -> KatherineSaleContract {
    KatherineSaleContract::new(
        owner_account(),
        MIN_DEPOSIT_AMOUNT_IN_NEAR,
        MIN_DEPOSIT_AMOUNT_IN_PAYMENT_TOKEN,
        usdt_token_contract(),
        USDT_UNIT,
        treasury_account(),
        SALE_FEE,
    )
}

fn create_sale(contract: &mut KatherineSaleContract, slug: &str, is_in_near: bool) {
    let unit = NEAR;
    let id = contract
        .create_sale(
            &owner_account(),
            STORAGE_PER_SALE,
            0,
            String::from(slug),
            is_in_near,
            sold_token_contract(),
            2 * unit,
            10 * unit,
            ms(0),
            ms(10),
            ms(15),
        )
        .unwrap();
    assert_eq!(id as usize, contract.sales.len() - 1);
}

fn abstract_near_deposit() -> KatherineSaleContract {
    let mut contract = new_katherine_contract();
    create_sale(&mut contract, "test-sale-1", true);
    contract.purchase_token_with_near(&accounts(1), 0, 3 * NEAR, ms(0)).unwrap();
    contract.purchase_token_with_near(&accounts(2), 0, 1 * NEAR, ms(1)).unwrap();
    contract
        .ft_on_transfer(&sold_token_contract(), &accounts(3), 8 * NEAR, &0.to_string(), ms(1))
        .unwrap();
    contract
}

fn abstract_usdt_deposit() -> KatherineSaleContract {
    let mut contract = new_katherine_contract();
    create_sale(&mut contract, "test-sale-1", false);
    contract
        .ft_on_transfer(&usdt_token_contract(), &accounts(1), 4 * USDT_UNIT, &0.to_string(), ms(0))
        .unwrap();
    contract
        .ft_on_transfer(&usdt_token_contract(), &accounts(2), 1 * USDT_UNIT, &0.to_string(), ms(1))
        .unwrap();
    contract
        .ft_on_transfer(&sold_token_contract(), &accounts(3), 10 * NEAR, &0.to_string(), ms(1))
        .unwrap();
    assert_eq!(10 * NEAR, contract.sales.get(0).unwrap().sold_tokens_for_buyers);
    contract
}

#[test]
fn test_near_sale_creation() {
    let mut contract = new_katherine_contract();
    create_sale(&mut contract, "test-sale-1", true);
    assert_eq!(1, contract.get_number_of_sales(), "Sale was not created!");
    assert_eq!(1, contract.active_sales.len(), "Sale was not created!");
}

#[test]
fn test_near_deposit() {
    let mut contract = new_katherine_contract();
    create_sale(&mut contract, "test-sale-1", true);

    contract.purchase_token_with_near(&accounts(1), 0, 3 * NEAR, ms(0)).unwrap();
    assert_eq!(6 * NEAR, contract.get_buyer_claimable_sold_token(&accounts(1), 0).unwrap());
    assert_eq!(3 * NEAR, contract.get_buyer_deposit(&accounts(1), 0).unwrap());
    assert_eq!(6 * NEAR, contract.sales.get(0).unwrap().required_sold_token);
    assert_eq!(3 * NEAR, contract.sales.get(0).unwrap().total_payment_token);
    assert_eq!(0, contract.sales.get(0).unwrap().sold_tokens_for_buyers);

    contract.purchase_token_with_near(&accounts(2), 0, 1 * NEAR, ms(1)).unwrap();
    assert_eq!(2 * NEAR, contract.get_buyer_claimable_sold_token(&accounts(2), 0).unwrap());
    assert_eq!(1 * NEAR, contract.get_buyer_deposit(&accounts(2), 0).unwrap());
    assert_eq!(8 * NEAR, contract.sales.get(0).unwrap().required_sold_token);
    assert_eq!(4 * NEAR, contract.sales.get(0).unwrap().total_payment_token);

    contract
        .ft_on_transfer(&sold_token_contract(), &accounts(3), 8 * NEAR, &0.to_string(), ms(1))
        .unwrap();
    assert_eq!(8 * NEAR, contract.sales.get(0).unwrap().sold_tokens_for_buyers);
}

#[test]
fn test_near_deposit_with_withdraws() {
    let mut contract = abstract_near_deposit();

    contract.collect_payments(&owner_account(), 0, ms(11)).unwrap();
    assert_eq!(8 * NEAR, contract.sales.get(0).unwrap().required_sold_token);
    assert_eq!(8 * NEAR, contract.sales.get(0).unwrap().sold_tokens_for_buyers);
    assert_eq!(0, contract.sales.get(0).unwrap().total_payment_token);

    contract
        .ft_on_transfer(&sold_token_contract(), &accounts(3), 2 * NEAR, &0.to_string(), ms(12))
        .unwrap();
    assert_eq!(10 * NEAR, contract.sales.get(0).unwrap().sold_tokens_for_buyers);

    contract.withdraw_excess_sold_tokens(&owner_account(), 0, ms(13)).unwrap();
    assert_eq!(8 * NEAR, contract.sales.get(0).unwrap().required_sold_token);
    assert_eq!(8 * NEAR, contract.sales.get(0).unwrap().sold_tokens_for_buyers);
    assert_eq!(0, contract.sales.get(0).unwrap().total_payment_token);
}

#[test]
fn test_usdt_deposit() {
    let mut contract = new_katherine_contract();
    create_sale(&mut contract, "test-sale-1", false);

    contract
        .ft_on_transfer(&usdt_token_contract(), &accounts(1), 4 * USDT_UNIT, &0.to_string(), ms(0))
        .unwrap();
    assert_eq!(8 * NEAR, contract.get_buyer_claimable_sold_token(&accounts(1), 0).unwrap());
    assert_eq!(4 * USDT_UNIT, contract.get_buyer_deposit(&accounts(1), 0).unwrap());
    assert_eq!(8 * NEAR, contract.sales.get(0).unwrap().required_sold_token);
    assert_eq!(4 * USDT_UNIT, contract.sales.get(0).unwrap().total_payment_token);
    assert_eq!(0, contract.sales.get(0).unwrap().sold_tokens_for_buyers);

    contract
        .ft_on_transfer(&usdt_token_contract(), &accounts(2), 1 * USDT_UNIT, &0.to_string(), ms(1))
        .unwrap();
    assert_eq!(2 * NEAR, contract.get_buyer_claimable_sold_token(&accounts(2), 0).unwrap());
    assert_eq!(1 * USDT_UNIT, contract.get_buyer_deposit(&accounts(2), 0).unwrap());
    assert_eq!(10 * NEAR, contract.sales.get(0).unwrap().required_sold_token);
    assert_eq!(5 * USDT_UNIT, contract.sales.get(0).unwrap().total_payment_token);

    contract
        .ft_on_transfer(&sold_token_contract(), &accounts(3), 10 * NEAR, &0.to_string(), ms(1))
        .unwrap();
    assert_eq!(10 * NEAR, contract.sales.get(0).unwrap().sold_tokens_for_buyers);
}

#[test]
fn test_usdt_deposit_with_withdraws() {
    let mut contract = abstract_usdt_deposit();

    contract.collect_payments(&owner_account(), 0, ms(11)).unwrap();
    assert_eq!(10 * NEAR, contract.sales.get(0).unwrap().required_sold_token);
    assert_eq!(10 * NEAR, contract.sales.get(0).unwrap().sold_tokens_for_buyers);
    assert_eq!(0, contract.sales.get(0).unwrap().total_payment_token);
}

#[test]
fn collect_payments_before_close_is_rejected() {
    let mut contract = abstract_near_deposit();
    assert_eq!(
        contract.collect_payments(&owner_account(), 0, ms(9)).unwrap_err(),
        SaleError::Stage
    );
    assert_eq!(4 * NEAR, contract.sales[0].total_payment_token);
    assert_eq!(1, contract.active_sales.len());
}

#[test]
fn deposit_over_cap_is_fully_rejected() {
    let mut contract = new_katherine_contract();
    create_sale(&mut contract, "test-sale-1", true);
    // 6 NEAR buys 12 NEAR of sold token, above the 10 NEAR cap.
    assert_eq!(
        contract.purchase_token_with_near(&accounts(1), 0, 6 * NEAR, ms(0)),
        Err(SaleError::Capacity)
    );
    assert_eq!(0, contract.sales[0].required_sold_token);
    assert_eq!(0, contract.sales[0].total_payment_token);
    assert_eq!(0, contract.get_buyer_claimable_sold_token(&accounts(1), 0).unwrap());
    assert_eq!(0, contract.get_buyer_deposit(&accounts(1), 0).unwrap());
    assert!(contract.get_buyer_sales(&accounts(1)).is_empty());
    // Exactly the cap is accepted.
    contract.purchase_token_with_near(&accounts(1), 0, 5 * NEAR, ms(0)).unwrap();
    assert_eq!(10 * NEAR, contract.sales[0].required_sold_token);
    assert_eq!(
        contract.purchase_token_with_near(&accounts(2), 0, 1 * NEAR, ms(0)),
        Err(SaleError::Capacity)
    );
}

#[test]
fn conservation_after_deposits_and_funding() {
    let mut contract = new_katherine_contract();
    create_sale(&mut contract, "test-sale-1", true);
    contract.purchase_token_with_near(&accounts(1), 0, 1 * NEAR, ms(0)).unwrap();
    contract.purchase_token_with_near(&accounts(2), 0, 2 * NEAR, ms(1)).unwrap();
    contract.purchase_token_with_near(&accounts(1), 0, 1 * NEAR, ms(2)).unwrap();
    contract
        .ft_on_transfer(&sold_token_contract(), &accounts(3), 3 * NEAR, &0.to_string(), ms(2))
        .unwrap();
    // A rejected call changes nothing.
    let _ = contract.purchase_token_with_near(&accounts(4), 0, NEAR / 2, ms(3));
    let sale = &contract.sales[0];
    let claims: u128 = (1..5)
        .map(|i| contract.get_buyer_claimable_sold_token(&accounts(i), 0).unwrap())
        .sum();
    let deposits: u128 = (1..5).map(|i| contract.get_buyer_deposit(&accounts(i), 0).unwrap()).sum();
    assert_eq!(claims, sale.required_sold_token);
    assert_eq!(deposits, sale.total_payment_token);
    assert_eq!(8 * NEAR, sale.required_sold_token);
    assert_eq!(4 * NEAR, sale.total_payment_token);
    assert_eq!(4 * NEAR, contract.get_buyer_claimable_sold_token(&accounts(1), 0).unwrap());
    assert_eq!(2, contract.get_number_of_buyers_for_sale(0).unwrap());
}

#[test]
fn stage_gating() {
    let mut contract = new_katherine_contract();
    create_sale(&mut contract, "test-sale-1", true);
    assert_eq!(
        contract.purchase_token_with_near(&accounts(1), 0, NEAR, ms(0) - 1),
        Err(SaleError::Stage)
    );
    assert_eq!(
        contract.purchase_token_with_near(&accounts(1), 0, NEAR, ms(10)),
        Err(SaleError::Stage)
    );
    contract.purchase_token_with_near(&accounts(1), 0, NEAR, ms(10) - 1).unwrap();
    contract
        .ft_on_transfer(&sold_token_contract(), &accounts(3), 2 * NEAR, &0.to_string(), ms(10))
        .unwrap();
    let owner = owner_account();
    assert_eq!(contract.collect_payments(&owner, 0, ms(10)).unwrap_err(), SaleError::Stage);
    assert_eq!(contract.collect_fees(&owner, 0, ms(10)).unwrap_err(), SaleError::Stage);
    assert_eq!(
        contract.withdraw_excess_sold_tokens(&owner, 0, ms(10)).unwrap_err(),
        SaleError::Stage
    );
    assert_eq!(
        contract.withdraw_tokens(&accounts(1), 0, ms(15) - 1).unwrap_err(),
        SaleError::Stage
    );
    assert!(contract.withdraw_tokens(&accounts(1), 0, ms(15)).is_ok());
    assert_eq!(
        contract
            .ft_on_transfer(&sold_token_contract(), &accounts(3), NEAR, &0.to_string(), ms(15))
            .unwrap_err(),
        SaleError::Stage
    );
}

fn is_sold_token_payout(t: &Transfer, buyer: &str, amount: u128) -> bool {
    t.token_id == Some(sold_token_contract())
        && t.receiver_id == buyer
        && t.amount == amount
        && matches!(&t.resolution, Resolution::BuyerSoldTokens { buyer_id, sale_id: 0, claimable, .. }
            if buyer_id == buyer && *claimable == amount)
}

#[test]
fn covered_withdrawal_pays_sold_token() {
    let mut contract = abstract_near_deposit();
    let sale = &contract.sales[0];
    assert_eq!(sale.required_sold_token, 8 * NEAR);
    assert_eq!(sale.sold_tokens_for_buyers, 8 * NEAR);
    let t = contract.withdraw_tokens(&accounts(1), 0, ms(15)).unwrap();
    assert!(is_sold_token_payout(&t, "bob.near", 6 * NEAR));
}

#[test]
fn uncovered_withdrawal_refunds_deposit() {
    let mut contract = new_katherine_contract();
    create_sale(&mut contract, "test-sale-1", true);
    contract.purchase_token_with_near(&accounts(1), 0, 3 * NEAR, ms(0)).unwrap();
    contract.purchase_token_with_near(&accounts(2), 0, 1 * NEAR, ms(1)).unwrap();
    assert_eq!(contract.sales[0].required_sold_token, 8 * NEAR);
    assert_eq!(contract.sales[0].sold_tokens_for_buyers, 0);
    let t = contract.withdraw_tokens(&accounts(1), 0, ms(15)).unwrap();
    assert_eq!(t.token_id, None);
    assert_eq!(t.receiver_id, "bob.near");
    assert_eq!(t.amount, 3 * NEAR);
    assert!(matches!(&t.resolution, Resolution::BuyerPaymentTokens { deposit, claimable, .. }
        if *deposit == 3 * NEAR && *claimable == 6 * NEAR));
    let sale = &contract.sales[0];
    assert_eq!(sale.required_sold_token, 2 * NEAR);
    assert_eq!(sale.total_payment_token, 1 * NEAR);
    assert_eq!(sale.sold_tokens_for_buyers, 0);
}

#[test]
fn uncovered_token_sale_refunds_in_payment_token() {
    let mut contract = new_katherine_contract();
    create_sale(&mut contract, "test-sale-1", false);
    contract
        .ft_on_transfer(&usdt_token_contract(), &accounts(1), 2 * USDT_UNIT, &0.to_string(), ms(0))
        .unwrap();
    let t = contract.withdraw_tokens(&accounts(1), 0, ms(16)).unwrap();
    assert_eq!(t.token_id, Some(usdt_token_contract()));
    assert_eq!(t.amount, 2 * USDT_UNIT);
}

#[test]
fn scenario_two_buyers_and_release() {
    let mut contract = new_katherine_contract();
    create_sale(&mut contract, "test-sale-1", true);
    contract.purchase_token_with_near(&accounts(1), 0, 3 * NEAR, ms(0)).unwrap();
    assert_eq!(6 * NEAR, contract.get_buyer_claimable_sold_token(&accounts(1), 0).unwrap());
    assert_eq!(6 * NEAR, contract.sales[0].required_sold_token);
    assert_eq!(3 * NEAR, contract.sales[0].total_payment_token);
    contract.purchase_token_with_near(&accounts(2), 0, 1 * NEAR, ms(1)).unwrap();
    assert_eq!(2 * NEAR, contract.get_buyer_claimable_sold_token(&accounts(2), 0).unwrap());
    assert_eq!(8 * NEAR, contract.sales[0].required_sold_token);
    assert_eq!(4 * NEAR, contract.sales[0].total_payment_token);
    contract
        .ft_on_transfer(&sold_token_contract(), &accounts(3), 8 * NEAR, &0.to_string(), ms(2))
        .unwrap();
    assert!(contract.sales[0].are_sold_tokens_covered());
    let t = contract.withdraw_tokens(&accounts(1), 0, ms(15)).unwrap();
    assert_eq!(t.amount, 6 * NEAR);
    assert_eq!(2 * NEAR, contract.sales[0].required_sold_token);
    assert_eq!(2 * NEAR, contract.sales[0].sold_tokens_for_buyers);
    contract.resolve_transfer(&t.resolution, true).unwrap();
    // The buyer had no other position and leaves the registry.
    assert!(contract.buyers.get(&accounts(1)).is_none());
    assert_eq!(1, contract.get_number_of_buyers());
}

#[test]
fn fee_scenario() {
    let mut contract = abstract_near_deposit();
    let t = contract.collect_payments(&owner_account(), 0, ms(11)).unwrap();
    // floor(4 NEAR * 250 / 10_000) = 0.1 NEAR
    let fee = 4 * NEAR * 250 / 10_000;
    assert_eq!(fee, NEAR / 10);
    assert_eq!(t.amount, 4 * NEAR - fee);
    assert_eq!(t.receiver_id, treasury_account());
    assert_eq!(t.token_id, None);
    assert_eq!(contract.sales[0].total_fees, fee);
    assert_eq!(contract.get_sale_fee(0).unwrap(), fee);
    assert_eq!(contract.active_sales.len(), 0);
    let f = contract.collect_fees(&owner_account(), 0, ms(11)).unwrap();
    assert_eq!(f.amount, fee);
    assert_eq!(contract.sales[0].total_fees, 0);
    assert_eq!(
        contract.collect_fees(&owner_account(), 0, ms(11)).unwrap_err(),
        SaleError::InsufficientFunds
    );
}

fn snapshot(c: &KatherineSaleContract) -> (u128, u128, u128, u128, u128, u128, u128, Vec<u32>) {
    let s = &c.sales[0];
    (
        s.required_sold_token,
        s.sold_tokens_for_buyers,
        s.total_payment_token,
        s.total_fees,
        c.get_buyer_claimable_sold_token(&accounts(1), 0).unwrap(),
        c.get_buyer_deposit(&accounts(1), 0).unwrap(),
        c.get_buyer_claimable_sold_token(&accounts(2), 0).unwrap(),
        c.get_buyer_sales(&accounts(1)),
    )
}

#[test]
fn rollback_of_failed_sold_token_payout_is_exact() {
    let mut contract = abstract_near_deposit();
    let before = snapshot(&contract);
    let t = contract.withdraw_tokens(&accounts(1), 0, ms(15)).unwrap();
    assert_ne!(snapshot(&contract), before);
    contract.resolve_transfer(&t.resolution, false).unwrap();
    assert_eq!(snapshot(&contract), before);
    // The buyer may withdraw again.
    assert!(contract.withdraw_tokens(&accounts(1), 0, ms(15)).is_ok());
}

#[test]
fn rollback_of_failed_refund_is_exact() {
    let mut contract = new_katherine_contract();
    create_sale(&mut contract, "test-sale-1", true);
    contract.purchase_token_with_near(&accounts(1), 0, 3 * NEAR, ms(0)).unwrap();
    contract.purchase_token_with_near(&accounts(2), 0, 1 * NEAR, ms(1)).unwrap();
    let before = snapshot(&contract);
    let t = contract.withdraw_tokens(&accounts(1), 0, ms(15)).unwrap();
    contract
        .buyer_withdraw_payment_tokens_resolve(&accounts(1), 6 * NEAR, 3 * NEAR, 0, false)
        .unwrap();
    assert!(matches!(t.resolution, Resolution::BuyerPaymentTokens { .. }));
    assert_eq!(snapshot(&contract), before);
}

#[test]
fn rollback_of_failed_collections_is_exact() {
    let mut contract = abstract_near_deposit();
    contract
        .ft_on_transfer(&sold_token_contract(), &accounts(3), 2 * NEAR, &0.to_string(), ms(2))
        .unwrap();
    let before = snapshot(&contract);
    let t = contract.collect_payments(&owner_account(), 0, ms(11)).unwrap();
    contract.resolve_transfer(&t.resolution, false).unwrap();
    assert_eq!(snapshot(&contract), before);

    let t = contract.collect_payments(&owner_account(), 0, ms(11)).unwrap();
    contract.resolve_transfer(&t.resolution, true).unwrap();
    let before = snapshot(&contract);
    let f = contract.collect_fees(&owner_account(), 0, ms(11)).unwrap();
    contract.seller_withdraw_fee_resolve(f.amount, 0, false).unwrap();
    assert_eq!(snapshot(&contract), before);

    let before = snapshot(&contract);
    let e = contract.withdraw_excess_sold_tokens(&owner_account(), 0, ms(11)).unwrap();
    assert_eq!(e.amount, 2 * NEAR);
    assert_eq!(e.receiver_id, owner_account());
    contract.resolve_transfer(&e.resolution, false).unwrap();
    assert_eq!(snapshot(&contract), before);
}

#[test]
fn excess_of_uncovered_sale_only_after_release() {
    let mut contract = new_katherine_contract();
    create_sale(&mut contract, "test-sale-1", true);
    contract.purchase_token_with_near(&accounts(1), 0, 3 * NEAR, ms(0)).unwrap();
    contract
        .ft_on_transfer(&sold_token_contract(), &accounts(3), 5 * NEAR, &0.to_string(), ms(1))
        .unwrap();
    assert_eq!(
        contract.withdraw_excess_sold_tokens(&owner_account(), 0, ms(12)).unwrap_err(),
        SaleError::Stage
    );
    let t = contract.withdraw_excess_sold_tokens(&owner_account(), 0, ms(15)).unwrap();
    assert_eq!(t.amount, 5 * NEAR);
    assert_eq!(contract.sales[0].sold_tokens_for_buyers, 0);
    assert_eq!(
        contract.collect_payments(&owner_account(), 0, ms(15)).unwrap_err(),
        SaleError::NotCovered
    );
}

#[test]
fn errors_for_each_rejection() {
    let mut contract = new_katherine_contract();
    let owner = owner_account();
    let stranger = accounts(1);
    assert_eq!(
        contract.create_sale(&stranger, STORAGE_PER_SALE, 0, "s".to_string(), true,
            sold_token_contract(), 1, 1, ms(0), ms(1), ms(2)),
        Err(SaleError::Authorization)
    );
    assert_eq!(
        contract.create_sale(&owner, STORAGE_PER_SALE - 1, 0, "s".to_string(), true,
            sold_token_contract(), 1, 1, ms(0), ms(1), ms(2)),
        Err(SaleError::StorageNotCovered)
    );
    assert_eq!(
        contract.create_sale(&owner, STORAGE_PER_SALE, ms(0), "s".to_string(), true,
            sold_token_contract(), 1, 1, ms(0), ms(1), ms(2)),
        Err(SaleError::InvalidDates)
    );
    assert_eq!(
        contract.create_sale(&owner, STORAGE_PER_SALE, 0, "s".to_string(), true,
            sold_token_contract(), 1, 1, ms(0), ms(2), ms(2)),
        Err(SaleError::InvalidDates)
    );
    assert_eq!(contract.get_number_of_sales(), 0);
    create_sale(&mut contract, "test-sale-1", true);
    assert_eq!(
        contract.create_sale(&owner, STORAGE_PER_SALE, 0, "test-sale-1".to_string(), true,
            sold_token_contract(), 1, 1, ms(0), ms(1), ms(2)),
        Err(SaleError::DuplicateSlug)
    );
    assert_eq!(contract.get_sale_id_from_slug(&"test-sale-1".to_string()), Some(0));
    assert_eq!(contract.get_sale_id_from_slug(&"other".to_string()), None);
    assert_eq!(
        contract.purchase_token_with_near(&stranger, 7, NEAR, ms(0)),
        Err(SaleError::UnknownSale)
    );
    assert_eq!(
        contract.purchase_token_with_near(&stranger, 0, NEAR - 1, ms(0)),
        Err(SaleError::BelowMinDeposit)
    );
    assert_eq!(
        contract.ft_on_transfer(&usdt_token_contract(), &stranger, NEAR, &0.to_string(), ms(0)),
        Err(SaleError::UnknownAsset)
    );
    assert_eq!(
        contract.ft_on_transfer(&sold_token_contract(), &stranger, NEAR, &"zero".to_string(), ms(0)),
        Err(SaleError::InvalidSaleId)
    );
    assert_eq!(
        contract.ft_on_transfer(&sold_token_contract(), &stranger, NEAR, &"1".to_string(), ms(0)),
        Err(SaleError::UnknownSale)
    );
    assert_eq!(
        contract.ft_on_transfer(&sold_token_contract(), &stranger, NEAR, &"+0".to_string(), ms(0)),
        Ok(0)
    );
    assert_eq!(
        contract.ft_on_transfer(&sold_token_contract(), &stranger, u128::MAX, &"0".to_string(), ms(0)),
        Err(SaleError::Overflow)
    );
    assert_eq!(
        contract.withdraw_tokens(&stranger, 0, ms(15)).unwrap_err(),
        SaleError::NothingToClaim
    );
    assert_eq!(
        contract.collect_payments(&stranger, 0, ms(15)).unwrap_err(),
        SaleError::Authorization
    );
    assert_eq!(
        contract.collect_payments(&owner, 0, ms(15)).unwrap_err(),
        SaleError::InsufficientFunds
    );
    assert_eq!(
        contract.seller_withdraw_excess_sold_tokens_resolve(u128::MAX, 0, false),
        Err(SaleError::RollbackConflict)
    );
    assert_eq!(
        contract.buyer_withdraw_sold_tokens_resolve(&stranger, 11 * NEAR, 1, 0, false),
        Err(SaleError::RollbackConflict)
    );
    assert_eq!(contract.update_default_sales_fee(&owner, 10_000), Err(SaleError::InvalidSetting));
    assert_eq!(contract.update_payment_token_unit(&owner, 0), Err(SaleError::InvalidSetting));
    assert_eq!(contract.update_treasury_id(&stranger, stranger.clone()), Err(SaleError::Authorization));
    assert_eq!(contract.get_sale_fee(3), Err(SaleError::UnknownSale));
}

#[test]
fn settings_apply_to_new_sales_only() {
    let mut contract = new_katherine_contract();
    let owner = owner_account();
    create_sale(&mut contract, "a", false);
    contract.update_default_sales_fee(&owner, 500).unwrap();
    contract.update_payment_token_unit(&owner, 100).unwrap();
    contract.update_min_deposit_amount_in_payment_token(&owner, 7).unwrap();
    contract.update_payment_token_contract_address(&owner, "usdc.near".to_string()).unwrap();
    contract.update_min_deposit_amount_in_near(&owner, 2).unwrap();
    create_sale(&mut contract, "b", false);
    let a = contract.get_sale(0, 0).unwrap();
    let b = contract.get_sale(1, 0).unwrap();
    assert_eq!((a.sale_fee, a.payment_token_unit, a.min_deposit_amount), (250, USDT_UNIT, USDT_UNIT));
    assert_eq!((b.sale_fee, b.payment_token_unit, b.min_deposit_amount), (500, 100, 7));
    assert_eq!(b.payment_token_contract_address, Some("usdc.near".to_string()));
    assert!(!b.is_in_near);
    assert!(b.is_active);
    contract.update_owner_id(&owner, "new-owner.near".to_string()).unwrap();
    assert_eq!(contract.owner_id, "new-owner.near");
    assert_eq!(contract.update_owner_id(&owner, owner.clone()), Err(SaleError::Authorization));
}

#[test]
fn listings_page_through_sales() {
    let mut contract = new_katherine_contract();
    create_sale(&mut contract, "a", true);
    create_sale(&mut contract, "b", true);
    create_sale(&mut contract, "c", true);
    let page = contract.get_sales(1, 5, 0);
    assert_eq!(page.len(), 2);
    assert_eq!(page[0].slug, "b");
    assert_eq!(page[1].slug, "c");
    assert_eq!(contract.get_sales(3, 1, 0).len(), 0);
    assert_eq!(contract.get_active_sales(0, 10, 0).len(), 3);
    assert_eq!(contract.get_active_sales(0, 10, ms(10)).len(), 0);
    contract.purchase_token_with_near(&accounts(1), 2, NEAR, ms(0)).unwrap();
    contract.purchase_token_with_near(&accounts(1), 0, NEAR, ms(0)).unwrap();
    contract.purchase_token_with_near(&accounts(2), 0, NEAR, ms(0)).unwrap();
    assert_eq!(contract.get_buyer_sales(&accounts(1)), vec![2, 0]);
    let list = contract.get_buyer_sales_list(&accounts(1), 1, 1, 0);
    assert_eq!(list.len(), 1);
    assert_eq!(list[0].id, 0);
    assert_eq!(contract.get_buyers(0, 10), vec![accounts(1), accounts(2)]);
    assert_eq!(contract.get_buyers(1, 10), vec![accounts(2)]);
    assert_eq!(contract.get_number_of_buyers(), 2);
}
