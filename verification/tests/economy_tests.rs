use slime_server::handlers::bank::{
    check_transfer_request, decide_deposit, decide_transfer, decide_withdraw, write_bank_balances,
    write_bank_status, write_bank_transfer,
};
use slime_server::handlers::gameplay::{build_points_update, collect_point, points_after_pit};
use slime_server::handlers::items::{can_discard_item, get_item_info, write_get_item, ItemCategory, ItemType};

#[test]
fn test_deposit() {
    assert_eq!(decide_deposit(100, 500, 1000, 10_000), Some((400, 1100)));
    assert_eq!(decide_deposit(0, 500, 1000, 10_000), None);
    assert_eq!(decide_deposit(501, 500, 1000, 10_000), None);
    assert_eq!(decide_deposit(100, 500, 9_950, 10_000), None);
    assert_eq!(decide_deposit(50, 500, 9_950, 10_000), Some((450, 10_000)));
}

#[test]
fn test_withdraw() {
    assert_eq!(decide_withdraw(100, 500, 1000, 10_000), Some((600, 900)));
    assert_eq!(decide_withdraw(0, 500, 1000, 10_000), None);
    assert_eq!(decide_withdraw(1001, 500, 1000, 10_000), None);
    assert_eq!(decide_withdraw(600, 9_500, 1000, 10_000), None);
    assert_eq!(decide_withdraw(10, u32::MAX - 5, 1000, u32::MAX), Some((u32::MAX, 990)));
}

#[test]
fn test_transfer() {
    assert!(check_transfer_request(10, "bob", 100));
    assert!(!check_transfer_request(0, "bob", 100));
    assert!(!check_transfer_request(10, "", 100));
    assert!(!check_transfer_request(101, "bob", 100));
    assert_eq!(decide_transfer(10, 1, 100, 2, 50, 1000), Some((90, 60)));
    assert_eq!(decide_transfer(10, 1, 100, 1, 100, 1000), None);
    assert_eq!(decide_transfer(10, 1, 100, 2, 995, 1000), None);
}

#[test]
fn test_bank_conserves_points_example() {
    let (p, b) = decide_deposit(123, 1000, 77, 100_000).unwrap();
    assert_eq!(p as i64 + b, 1077);
    let (p, b) = decide_withdraw(50, 10, 77, 100_000).unwrap();
    assert_eq!(p as i64 + b, 87);
    let (s, t) = decide_transfer(30, 1, 77, 2, 5, 100_000).unwrap();
    assert_eq!(s + t, 82);
}

#[test]
fn test_bank_messages() {
    assert_eq!(write_bank_status(300), vec![44, 0, 1, 0x2C, 0x01, 0, 0]);
    assert_eq!(write_bank_balances(1, 5, 256), vec![45, 0, 1, 5, 0, 0, 0, 0, 1, 0, 0]);
    assert_eq!(write_bank_transfer(Some(2)), vec![45, 0, 3, 2, 0, 0, 0]);
    assert_eq!(write_bank_transfer(None), vec![45, 0, 4]);
}

#[test]
fn test_points() {
    assert_eq!(collect_point(5, 10), 6);
    assert_eq!(collect_point(10, 10), 10);
    assert_eq!(points_after_pit(25), 15);
    assert_eq!(points_after_pit(7), 0);
    assert_eq!(build_points_update(0x01020304), vec![18, 0, 2, 4, 3, 2, 1]);
}

#[test]
fn test_item_table() {
    let wing = get_item_info(1).unwrap();
    assert_eq!(wing.name, "Warp-Wing");
    assert_eq!(wing.item_type, ItemType::WarpWing);
    assert!(wing.is_consumable);
    assert!(wing.is_discardable);
    let coin = get_item_info(33).unwrap();
    assert_eq!(coin.item_type, ItemType::LuckyCoin);
    assert!(!coin.is_consumable);
    let leg = get_item_info(48).unwrap();
    assert_eq!(leg.name, "Bug Leg");
    assert!(!leg.is_discardable);
    assert_eq!(get_item_info(52).unwrap().item_type, ItemType::ProofStone);
    assert_eq!(get_item_info(61).unwrap().name, "Irrlicht");
    assert!(get_item_info(0).is_none());
    assert!(get_item_info(62).is_none());
}

#[test]
fn test_discard_rule() {
    assert!(can_discard_item(1));
    assert!(can_discard_item(47));
    assert!(!can_discard_item(48));
    assert!(can_discard_item(49));
    assert!(can_discard_item(61));
    assert!(!can_discard_item(0));
    assert!(!can_discard_item(62));
}

#[test]
fn test_item_messages() {
    assert_eq!(write_get_item(3, 0x0102), vec![41, 0, 3, 2, 1]);
    assert_eq!(ItemCategory::from_u8(1), Some(ItemCategory::Outfit));
    assert_eq!(ItemCategory::from_u8(4), Some(ItemCategory::Tool));
    assert_eq!(ItemCategory::from_u8(5), None);
}

#[test]
fn test_withdraw_undoes_deposit() {
    let (p, b) = decide_deposit(250, 1000, 40, 100_000).unwrap();
    assert_eq!(decide_withdraw(250, p, b, 5000), Some((1000, 40)));
    let (p, b) = decide_withdraw(30, 100, 40, 5000).unwrap();
    assert_eq!(decide_deposit(30, p, b, 100_000), Some((100, 40)));
}
