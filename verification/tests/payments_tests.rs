use ad_marketplace::account::AccountId;
use ad_marketplace::account::LedgerAccount;
use ad_marketplace::marketplace::create_ad_slot;
use ad_marketplace::marketplace::deactivate_slot;
use ad_marketplace::marketplace::AdSlot;
use ad_marketplace::payments::escrow_payment;
use ad_marketplace::payments::release_escrow;
use ad_marketplace::payments::refund_escrow;
use ad_marketplace::payments::Escrow;
use ad_marketplace::payments::ErrorCode;

fn id(value: u64) -> AccountId {
    AccountId { value }
}

fn listed_slot(owner: AccountId) -> AdSlot {
    let (slot, _ev) = create_ad_slot(
        owner,
        "slot-1".to_string(),
        100,
        30,
        false,
        0,
        "banner".to_string(),
        5000,
    );
    slot
}

#[test]
fn funding_moves_amount_into_custody() {
    let seller = id(1);
    let adv = id(2);
    let slot = listed_slot(seller);
    let mut adv_acct = LedgerAccount { key: adv, lamports: 2500 };

    let (escrow, ev) = escrow_payment(&mut adv_acct, &slot, 1000, id(77)).unwrap();
    assert_eq!(adv_acct.lamports, 1500);
    assert_eq!(escrow.amount, 1000);
    assert_eq!(escrow.custody, 1000);
    assert_eq!(escrow.advertiser, adv);
    assert_eq!(escrow.publisher, seller);
    assert!(!escrow.is_released);
    assert_eq!(ev.escrow_key, id(77));
    assert_eq!(ev.advertiser, adv);
    assert_eq!(ev.publisher, seller);
    assert_eq!(ev.amount, 1000);
}

#[test]
fn funding_zero_is_rejected() {
    let slot = listed_slot(id(1));
    let mut adv_acct = LedgerAccount { key: id(2), lamports: 2500 };
    let r = escrow_payment(&mut adv_acct, &slot, 0, id(77));
    assert!(matches!(r, Err(ErrorCode::InvalidAmount)));
    assert_eq!(adv_acct.lamports, 2500);
}

#[test]
fn funding_beyond_balance_is_rejected() {
    let slot = listed_slot(id(1));
    let mut adv_acct = LedgerAccount { key: id(2), lamports: 400 };
    let r = escrow_payment(&mut adv_acct, &slot, 500, id(77));
    assert!(matches!(r, Err(ErrorCode::InsufficientFunds)));
    assert_eq!(adv_acct.lamports, 400);
}

#[test]
fn scenario_release_after_lifecycle_ends() {
    let seller = id(1);
    let adv = id(2);
    let ekey = id(77);
    let mut slot = listed_slot(seller);
    let mut adv_acct = LedgerAccount { key: adv, lamports: 2000 };
    let mut pub_acct = LedgerAccount { key: seller, lamports: 300 };

    let (mut escrow, _ev) = escrow_payment(&mut adv_acct, &slot, 1000, ekey).unwrap();

    let r = release_escrow(&mut escrow, &mut pub_acct, &slot, seller, ekey);
    assert!(matches!(r, Err(ErrorCode::SlotActive)));
    assert_eq!(pub_acct.lamports, 300);
    assert!(!escrow.is_released);

    deactivate_slot(&mut slot, seller).unwrap();

    let ev = release_escrow(&mut escrow, &mut pub_acct, &slot, seller, ekey).unwrap();
    assert_eq!(pub_acct.lamports, 1300);
    assert!(escrow.is_released);
    assert_eq!(escrow.amount, 0);
    assert_eq!(escrow.custody, 0);
    assert_eq!(ev.escrow_key, ekey);
    assert_eq!(ev.publisher, seller);
    assert_eq!(ev.amount, 1000);

    let r = release_escrow(&mut escrow, &mut pub_acct, &slot, seller, ekey);
    assert!(matches!(r, Err(ErrorCode::EscrowAlreadyReleased)));
    assert_eq!(pub_acct.lamports, 1300);
}

#[test]
fn scenario_refund_gated_on_advertiser() {
    let seller = id(1);
    let adv = id(2);
    let stranger = id(9);
    let ekey = id(78);
    let slot = listed_slot(seller);
    let mut adv_acct = LedgerAccount { key: adv, lamports: 500 };

    let (mut escrow, _ev) = escrow_payment(&mut adv_acct, &slot, 500, ekey).unwrap();
    assert_eq!(adv_acct.lamports, 0);

    let r = refund_escrow(&mut escrow, &mut adv_acct, &slot, stranger, ekey);
    assert!(matches!(r, Err(ErrorCode::Unauthorized)));
    assert_eq!(escrow.amount, 500);
    assert_eq!(adv_acct.lamports, 0);

    let ev = refund_escrow(&mut escrow, &mut adv_acct, &slot, adv, ekey).unwrap();
    assert_eq!(adv_acct.lamports, 500);
    assert_eq!(escrow.amount, 0);
    assert!(escrow.is_released);
    assert_eq!(ev.escrow_key, ekey);
    assert_eq!(ev.advertiser, adv);
    assert_eq!(ev.amount, 500);
}

#[test]
fn advertiser_may_trigger_release_too() {
    let seller = id(1);
    let adv = id(2);
    let ekey = id(79);
    let mut slot = listed_slot(seller);
    let mut adv_acct = LedgerAccount { key: adv, lamports: 800 };
    let mut pub_acct = LedgerAccount { key: seller, lamports: 0 };

    let (mut escrow, _ev) = escrow_payment(&mut adv_acct, &slot, 800, ekey).unwrap();
    deactivate_slot(&mut slot, seller).unwrap();

    let r = release_escrow(&mut escrow, &mut pub_acct, &slot, adv, ekey);
    assert!(r.is_ok());
    assert_eq!(pub_acct.lamports, 800);
}

#[test]
fn release_to_stranger_caller_is_rejected() {
    let seller = id(1);
    let adv = id(2);
    let stranger = id(9);
    let ekey = id(80);
    let mut slot = listed_slot(seller);
    let mut adv_acct = LedgerAccount { key: adv, lamports: 800 };
    let mut pub_acct = LedgerAccount { key: seller, lamports: 10 };

    let (mut escrow, _ev) = escrow_payment(&mut adv_acct, &slot, 800, ekey).unwrap();
    deactivate_slot(&mut slot, seller).unwrap();

    let r = release_escrow(&mut escrow, &mut pub_acct, &slot, stranger, ekey);
    assert!(matches!(r, Err(ErrorCode::Unauthorized)));
    assert_eq!(pub_acct.lamports, 10);
    assert!(!escrow.is_released);
}

#[test]
fn release_to_account_other_than_recorded_publisher_is_rejected() {
    let seller = id(1);
    let adv = id(2);
    let ekey = id(81);
    let mut slot = listed_slot(seller);
    let mut adv_acct = LedgerAccount { key: adv, lamports: 800 };
    // an account that is not the publisher captured at funding time
    let mut other_acct = LedgerAccount { key: id(6), lamports: 10 };

    let (mut escrow, _ev) = escrow_payment(&mut adv_acct, &slot, 800, ekey).unwrap();
    deactivate_slot(&mut slot, seller).unwrap();

    let r = release_escrow(&mut escrow, &mut other_acct, &slot, seller, ekey);
    assert!(matches!(r, Err(ErrorCode::Unauthorized)));
    assert_eq!(other_acct.lamports, 10);
}

#[test]
fn ownership_change_after_funding_blocks_release() {
    let seller = id(1);
    let adv = id(2);
    let ekey = id(82);
    let mut slot = listed_slot(seller);
    let mut adv_acct = LedgerAccount { key: adv, lamports: 800 };
    let mut pub_acct = LedgerAccount { key: seller, lamports: 0 };

    let (mut escrow, _ev) = escrow_payment(&mut adv_acct, &slot, 800, ekey).unwrap();
    deactivate_slot(&mut slot, seller).unwrap();
    // the slot is reassigned between funding and release
    slot.owner = id(5);

    let r = release_escrow(&mut escrow, &mut pub_acct, &slot, seller, ekey);
    assert!(matches!(r, Err(ErrorCode::Unauthorized)));
    assert_eq!(pub_acct.lamports, 0);
}

#[test]
fn refund_then_release_is_rejected() {
    let seller = id(1);
    let adv = id(2);
    let ekey = id(83);
    let mut slot = listed_slot(seller);
    let mut adv_acct = LedgerAccount { key: adv, lamports: 600 };
    let mut pub_acct = LedgerAccount { key: seller, lamports: 0 };

    let (mut escrow, _ev) = escrow_payment(&mut adv_acct, &slot, 600, ekey).unwrap();
    refund_escrow(&mut escrow, &mut adv_acct, &slot, adv, ekey).unwrap();
    assert_eq!(adv_acct.lamports, 600);

    deactivate_slot(&mut slot, seller).unwrap();
    let r = release_escrow(&mut escrow, &mut pub_acct, &slot, seller, ekey);
    assert!(matches!(r, Err(ErrorCode::EscrowAlreadyReleased)));
    assert_eq!(pub_acct.lamports, 0);
}

#[test]
fn zeroed_record_is_an_invalid_escrow() {
    let seller = id(1);
    let adv = id(2);
    let mut slot = listed_slot(seller);
    deactivate_slot(&mut slot, seller).unwrap();
    // a record that was never funded: nothing to settle
    let mut escrow = Escrow {
        amount: 0,
        advertiser: adv,
        publisher: seller,
        is_released: false,
        custody: 0,
    };
    let mut pub_acct = LedgerAccount { key: seller, lamports: 0 };
    let r = release_escrow(&mut escrow, &mut pub_acct, &slot, seller, id(84));
    assert!(matches!(r, Err(ErrorCode::InvalidEscrow)));

    let mut adv_acct = LedgerAccount { key: adv, lamports: 0 };
    let r = refund_escrow(&mut escrow, &mut adv_acct, &slot, adv, id(84));
    assert!(matches!(r, Err(ErrorCode::InvalidEscrow)));
}

#[test]
fn custody_below_recorded_amount_is_an_integrity_fault() {
    let seller = id(1);
    let adv = id(2);
    let mut slot = listed_slot(seller);
    deactivate_slot(&mut slot, seller).unwrap();
    // custody and recorded amount diverged: must fail closed
    let mut escrow = Escrow {
        amount: 500,
        advertiser: adv,
        publisher: seller,
        is_released: false,
        custody: 499,
    };
    let mut pub_acct = LedgerAccount { key: seller, lamports: 0 };
    let r = release_escrow(&mut escrow, &mut pub_acct, &slot, seller, id(85));
    assert!(matches!(r, Err(ErrorCode::InsufficientFunds)));
    assert_eq!(pub_acct.lamports, 0);
    assert!(!escrow.is_released);

    let mut adv_acct = LedgerAccount { key: adv, lamports: 0 };
    let r = refund_escrow(&mut escrow, &mut adv_acct, &slot, adv, id(85));
    assert!(matches!(r, Err(ErrorCode::InsufficientFunds)));
    assert_eq!(adv_acct.lamports, 0);
}

#[test]
fn settled_latch_is_reported_before_slot_state() {
    let seller = id(1);
    let adv = id(2);
    // a settled record and a still-active slot: the latch is what is reported
    let slot = listed_slot(seller);
    let mut escrow = Escrow {
        amount: 0,
        advertiser: adv,
        publisher: seller,
        is_released: true,
        custody: 0,
    };
    let mut pub_acct = LedgerAccount { key: seller, lamports: 0 };
    let r = release_escrow(&mut escrow, &mut pub_acct, &slot, seller, id(87));
    assert!(matches!(r, Err(ErrorCode::EscrowAlreadyReleased)));
}

#[test]
fn funds_are_conserved_across_fund_and_release() {
    let seller = id(1);
    let adv = id(2);
    let ekey = id(86);
    let mut slot = listed_slot(seller);
    let mut adv_acct = LedgerAccount { key: adv, lamports: 900 };
    let mut pub_acct = LedgerAccount { key: seller, lamports: 100 };
    let before = adv_acct.lamports + pub_acct.lamports;

    let (mut escrow, _ev) = escrow_payment(&mut adv_acct, &slot, 700, ekey).unwrap();
    assert_eq!(adv_acct.lamports + pub_acct.lamports + escrow.custody, before);

    deactivate_slot(&mut slot, seller).unwrap();
    release_escrow(&mut escrow, &mut pub_acct, &slot, seller, ekey).unwrap();
    assert_eq!(escrow.custody, 0);
    assert_eq!(adv_acct.lamports + pub_acct.lamports, before);
    assert_eq!(pub_acct.lamports, 800);
    assert_eq!(adv_acct.lamports, 200);
}
