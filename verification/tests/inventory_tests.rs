use slime_server::db::characters::Inventory;
use slime_server::handlers::mail::{decide_mail_send, MailSendOutcome};
use slime_server::handlers::shop::{
    build_room_shop_info, decide_shop_buy, find_empty_slot, first_empty_slot, write_shop_buy, write_shop_buy_fail,
    ResolvedShopItem, ShopBuyOutcome, ShopCategory,
};
use slime_server::handlers::storage::{build_storage_page, build_storage_pages, decide_storage_move, StorageMoveOutcome};

fn inventory(items: [i16; 9], outfits: [i16; 9], tools: [i16; 9]) -> Inventory {
    Inventory {
        character_id: 7,
        emote_1: 1,
        emote_2: 0,
        emote_3: 0,
        emote_4: 0,
        emote_5: 0,
        outfit_1: outfits[0],
        outfit_2: outfits[1],
        outfit_3: outfits[2],
        outfit_4: outfits[3],
        outfit_5: outfits[4],
        outfit_6: outfits[5],
        outfit_7: outfits[6],
        outfit_8: outfits[7],
        outfit_9: outfits[8],
        accessory_1: 0,
        accessory_2: 0,
        accessory_3: 0,
        accessory_4: 0,
        accessory_5: 0,
        accessory_6: 0,
        accessory_7: 0,
        accessory_8: 0,
        accessory_9: 0,
        item_1: items[0],
        item_2: items[1],
        item_3: items[2],
        item_4: items[3],
        item_5: items[4],
        item_6: items[5],
        item_7: items[6],
        item_8: items[7],
        item_9: items[8],
        tool_1: tools[0],
        tool_2: tools[1],
        tool_3: tools[2],
        tool_4: tools[3],
        tool_5: tools[4],
        tool_6: tools[5],
        tool_7: tools[6],
        tool_8: tools[7],
        tool_9: tools[8],
        equipped_tool: 0,
    }
}

fn shop_item(category: u8, price: u32, stock: u16, max_stock: u16) -> ResolvedShopItem {
    ResolvedShopItem { slot_id: 2, category, item_id: 12, price, stock, max_stock, is_available: true }
}

#[test]
fn test_first_empty_slot() {
    assert_eq!(first_empty_slot([1, 2, 0, 0, 5, 6, 7, 8, 9]), Some(3));
    assert_eq!(first_empty_slot([0; 9]), Some(1));
    assert_eq!(first_empty_slot([1; 9]), None);
}

#[test]
fn test_find_empty_slot_by_category() {
    let inv = inventory([1, 1, 1, 0, 0, 0, 0, 0, 0], [1; 9], [3, 3, 0, 0, 0, 0, 0, 0, 0]);
    assert_eq!(find_empty_slot(&inv, ShopCategory::Item), Some(4));
    assert_eq!(find_empty_slot(&inv, ShopCategory::Outfit), None);
    assert_eq!(find_empty_slot(&inv, ShopCategory::Accessory), Some(1));
    assert_eq!(find_empty_slot(&inv, ShopCategory::Tool), Some(3));
}

#[test]
fn test_shop_buy_decisions() {
    let inv = inventory([1, 0, 0, 0, 0, 0, 0, 0, 0], [1; 9], [0; 9]);
    assert_eq!(
        decide_shop_buy(&shop_item(2, 100, 3, 5), 250, &inv),
        ShopBuyOutcome::Bought { category: ShopCategory::Item, inv_slot: 2, new_points: 150, new_stock: Some(2) }
    );
    assert_eq!(
        decide_shop_buy(&shop_item(2, 100, 0, 0), 100, &inv),
        ShopBuyOutcome::Bought { category: ShopCategory::Item, inv_slot: 2, new_points: 0, new_stock: None }
    );
    assert_eq!(decide_shop_buy(&shop_item(2, 100, 0, 5), 250, &inv), ShopBuyOutcome::OutOfStock);
    assert_eq!(decide_shop_buy(&shop_item(2, 100, 3, 5), 99, &inv), ShopBuyOutcome::NotEnoughPoints);
    assert_eq!(decide_shop_buy(&shop_item(1, 100, 3, 5), 250, &inv), ShopBuyOutcome::InventoryFull);
    assert_eq!(decide_shop_buy(&shop_item(7, 100, 3, 5), 250, &inv), ShopBuyOutcome::Ignored);
    let mut off = shop_item(2, 100, 3, 5);
    off.is_available = false;
    assert_eq!(decide_shop_buy(&off, 250, &inv), ShopBuyOutcome::Ignored);
}

#[test]
fn test_shop_messages() {
    assert_eq!(write_shop_buy_fail(1, 4), vec![29, 0, 1, 4]);
    assert_eq!(write_shop_buy_fail(2, 4), vec![29, 0, 2]);
    assert_eq!(write_shop_buy(2, 3, 0x0102, 0x10005), vec![28, 0, 2, 3, 2, 1, 5, 0]);
    assert_eq!(build_room_shop_info(&vec![]), None);
    let one = vec![shop_item(2, 300, 0, 5)];
    assert_eq!(build_room_shop_info(&one), Some(vec![27, 0, 1, 2, 2, 0x2C, 0x01, 0, 12, 0]));
    let two = vec![shop_item(2, 1, 0, 0), shop_item(3, 2, 4, 5)];
    assert_eq!(build_room_shop_info(&two), Some(vec![27, 0, 2, 2, 1, 0, 1, 12, 0, 3, 2, 0, 1, 12, 0]));
}

#[test]
fn test_mail_send() {
    let inv = inventory([0, 33, 0, 0, 0, 0, 0, 0, 0], [1; 9], [0; 9]);
    assert_eq!(
        decide_mail_send("hi", 100, Some(2), 1, Some(&inv), 2, 2, 10, 50),
        MailSendOutcome::Send { item: Some((2, 2, 33)), points: 10, new_points: 40 }
    );
    assert_eq!(
        decide_mail_send("hi", 100, Some(2), 1, Some(&inv), 2, 1, 0, 50),
        MailSendOutcome::Send { item: None, points: 0, new_points: 50 }
    );
    assert_eq!(
        decide_mail_send("hi", 100, Some(2), 1, Some(&inv), 2, 2, 60, 50),
        MailSendOutcome::Refused { removed: Some((2, 2)) }
    );
    assert_eq!(
        decide_mail_send("hi", 100, Some(1), 1, Some(&inv), 0, 0, 0, 50),
        MailSendOutcome::Refused { removed: None }
    );
    assert_eq!(
        decide_mail_send("hi", 100, None, 1, Some(&inv), 0, 0, 0, 50),
        MailSendOutcome::Refused { removed: None }
    );
    assert_eq!(
        decide_mail_send("too long", 3, Some(2), 1, Some(&inv), 0, 0, 0, 50),
        MailSendOutcome::Refused { removed: None }
    );
}

#[test]
fn test_mail_points_conserved_example() {
    match decide_mail_send("x", 10, Some(5), 1, None, 0, 0, 30, 100) {
        MailSendOutcome::Send { points, new_points, .. } => assert_eq!(points + new_points, 100),
        _ => panic!("expected the mail to go out"),
    }
}

#[test]
fn test_storage_pages() {
    let storage: Vec<u16> = vec![5, 0, 0, 0, 0, 0, 0, 0, 0, 0, 9];
    assert_eq!(build_storage_page(&storage, 0), None);
    assert_eq!(build_storage_page(&storage, 21), None);
    let mut page2 = vec![56, 0, 0, 0, 9, 0];
    page2.extend(vec![0u8; 14]);
    assert_eq!(build_storage_page(&storage, 2), Some(page2));
    let (flags, first) = build_storage_pages(&storage);
    let mut expected_flags = vec![57, 0, 0, 1, 1];
    expected_flags.extend(vec![0u8; 18]);
    assert_eq!(flags, expected_flags);
    assert_eq!(first, vec![56, 0, 5, 0, 0, 0, 0, 0, 0, 0, 0, 0, 0, 0, 0, 0, 0, 0, 0, 0]);
}

#[test]
fn test_storage_move_swaps() {
    let storage: Vec<u16> = vec![5];
    let inv = [7, 0, 0, 0, 0, 0, 0, 0, 0];
    match decide_storage_move(&storage, inv, 1, 1, 10) {
        StorageMoveOutcome::Moved { storage: s, inventory: i, message } => {
            assert_eq!(s.len(), 180);
            assert_eq!(s[0], 7);
            assert_eq!(i[0], 5);
            assert_eq!(message, vec![58, 0, 1, 10]);
        }
        _ => panic!("expected a move"),
    }
    // Moving the item out leaves the page empty: status 0.
    match decide_storage_move(&storage, [0; 9], 1, 1, 10) {
        StorageMoveOutcome::Moved { storage: s, inventory: i, message } => {
            assert_eq!(s[0], 0);
            assert_eq!(i[0], 5);
            assert_eq!(message, vec![58, 0, 0, 10]);
        }
        _ => panic!("expected a move"),
    }
    // Two storage slots: status 3.
    match decide_storage_move(&storage, [0; 9], 1, 1, 2) {
        StorageMoveOutcome::Moved { storage: s, message, .. } => {
            assert_eq!((s[0], s[1]), (0, 5));
            assert_eq!(message, vec![58, 0, 3, 2]);
        }
        _ => panic!("expected a move"),
    }
    assert_eq!(decide_storage_move(&storage, [0; 9], 1, 2, 3), StorageMoveOutcome::Nothing);
}
