//! Each operation of the ledger, called once per test: the success path and
//! every caller-visible error.

use product_ledger::Error;
use product_ledger::Origin;
use product_ledger::Pallet;

const WINDOW: u64 = 15;

#[test]
fn add_manufacture_successfully() {
    let mut p = Pallet::new(WINDOW);
    assert_eq!(p.add_manufacturer(Origin::Root, 1), Ok(()));
}

#[test]
fn add_manufacture_fail() {
    let mut p = Pallet::new(WINDOW);
    assert_eq!(p.add_manufacturer(Origin::Signed(1), 1), Err(Error::BadOrigin));
}

#[test]
fn add_duplicate_manufacture_fail() {
    let mut p = Pallet::new(WINDOW);
    assert_eq!(p.add_manufacturer(Origin::Root, 1), Ok(()));
    assert_eq!(p.add_manufacturer(Origin::Root, 1), Err(Error::ManufacturerAlreadyPresent));
}

#[test]
fn add_product_successfully() {
    let mut p = Pallet::new(WINDOW);
    assert_eq!(p.add_manufacturer(Origin::Root, 1), Ok(()));
    assert_eq!(p.add_product(Origin::Signed(1), 42), Ok(()));
}

#[test]
fn add_product_from_sudo_fail() {
    let mut p = Pallet::new(WINDOW);
    assert_eq!(p.add_manufacturer(Origin::Root, 1), Ok(()));
    assert_eq!(p.add_product(Origin::Root, 42), Err(Error::BadOrigin));
}

#[test]
fn add_duplicate_product_fail() {
    let mut p = Pallet::new(WINDOW);
    assert_eq!(p.add_manufacturer(Origin::Root, 1), Ok(()));
    assert_eq!(p.add_product(Origin::Signed(1), 42), Ok(()));
    assert_eq!(p.add_product(Origin::Signed(1), 42), Err(Error::ProductAlreadyPresent));
}

#[test]
fn add_product_by_unauthorised_person_fail() {
    let mut p = Pallet::new(WINDOW);
    assert_eq!(p.add_manufacturer(Origin::Root, 1), Ok(()));
    assert_eq!(p.add_product(Origin::Signed(2), 42), Err(Error::UnAuthorisedPerson));
}

#[test]
fn check_authenticity_successfully() {
    let mut p = Pallet::new(WINDOW);
    assert_eq!(p.add_manufacturer(Origin::Root, 1), Ok(()));
    assert_eq!(p.add_product(Origin::Signed(1), 42), Ok(()));
    assert_eq!(p.check_authenticity(Origin::Signed(1), 42, 1), Ok(()));
}

#[test]
fn check_authenticity_fail() {
    let mut p = Pallet::new(WINDOW);
    assert_eq!(p.add_manufacturer(Origin::Root, 1), Ok(()));
    assert_eq!(p.add_product(Origin::Signed(1), 42), Ok(()));
    assert_eq!(p.check_authenticity(Origin::Signed(1), 43, 1), Err(Error::UnAuthenticProduct));
}

#[test]
fn check_authenticity_from_invalid_origin_fail() {
    let mut p = Pallet::new(WINDOW);
    assert_eq!(p.add_manufacturer(Origin::Root, 1), Ok(()));
    assert_eq!(p.add_product(Origin::Signed(1), 42), Ok(()));
    assert_eq!(p.check_authenticity(Origin::Root, 43, 1), Err(Error::BadOrigin));
}

#[test]
fn refund_products_successfully() {
    let mut p = Pallet::new(WINDOW);
    assert_eq!(p.add_manufacturer(Origin::Root, 1), Ok(()));
    assert_eq!(p.add_product(Origin::Signed(1), 42), Ok(()));
    assert_eq!(p.check_authenticity(Origin::Signed(1), 42, 1), Ok(()));
    assert_eq!(p.refund_products(Origin::Signed(1), 42), Ok(()));
}

#[test]
fn duplicate_refund_products_fail() {
    let mut p = Pallet::new(WINDOW);
    assert_eq!(p.add_manufacturer(Origin::Root, 1), Ok(()));
    assert_eq!(p.add_product(Origin::Signed(1), 42), Ok(()));
    assert_eq!(p.check_authenticity(Origin::Signed(1), 42, 1), Ok(()));
    assert_eq!(p.refund_products(Origin::Signed(1), 42), Ok(()));
    assert_eq!(p.refund_products(Origin::Signed(1), 42), Err(Error::UnsoldProduct));
}

#[test]
fn refund_products_from_incorrect_origin_fail() {
    let mut p = Pallet::new(WINDOW);
    assert_eq!(p.add_manufacturer(Origin::Root, 1), Ok(()));
    assert_eq!(p.add_product(Origin::Signed(1), 42), Ok(()));
    assert_eq!(p.check_authenticity(Origin::Signed(1), 42, 1), Ok(()));
    assert_eq!(p.refund_products(Origin::Root, 42), Err(Error::BadOrigin));
}
