use slime_server::config::DefaultsConfig;
use slime_server::db::runtime_state::GroundItem;
use slime_server::game::PlayerSession;
use slime_server::handlers::cannon::{build_cannon_enter, build_cannon_shoot, parse_cannon_shot, CannonShot};
use slime_server::handlers::ground::{build_discard_message, decide_discard, decide_pickup, parse_discard, PickupOutcome};
use slime_server::handlers::racing::{build_move_get_off, build_move_get_on, RaceEnd};
use slime_server::handlers::switches::build_switch_status;
use slime_server::handlers::use_item::{
    decide_use_item, parse_use_item, resolve_effect_position, warp_wing_messages, warp_wing_target, UseItemAction,
    UseItemRequest,
};

fn session() -> PlayerSession {
    let d = DefaultsConfig {
        spawn_x: 1,
        spawn_y: 2,
        spawn_room: 91,
        outfit: 0,
        accessory1: 0,
        accessory2: 0,
        signature: 0,
        signature_bg: 0,
        emotes: [0; 5],
        starting_items: [0; 9],
        starting_outfits: [0; 9],
        starting_accessories: [0; 9],
        starting_tools: [0; 9],
        unlocked_mail_paper: vec![],
    };
    PlayerSession::new("1.2.3.4".to_string(), &d, 0)
}

fn ground(id: i64, item_id: i64) -> GroundItem {
    GroundItem {
        id,
        room_id: 1,
        item_id,
        x: 0,
        y: 0,
        dropped_by: None,
        dropped_at: "2024-01-01 00:00:00".to_string(),
        expires_at: None,
    }
}

#[test]
fn test_parse_use_item() {
    assert_eq!(parse_use_item(&[]), None);
    assert_eq!(parse_use_item(&[3]), Some(UseItemRequest { slot: 3, position: None, direction: 0 }));
    assert_eq!(parse_use_item(&[3, 9]), Some(UseItemRequest { slot: 3, position: None, direction: 9 }));
    assert_eq!(
        parse_use_item(&[3, 0x2C, 0x01, 10, 0, 2]),
        Some(UseItemRequest { slot: 3, position: Some((300, 10)), direction: 2 })
    );
}

#[test]
fn test_effect_position() {
    assert_eq!(resolve_effect_position(Some((300, 10)), 5, 6), (300, 10));
    assert_eq!(resolve_effect_position(Some((6000, 10)), 5, 6), (5, 6));
    assert_eq!(resolve_effect_position(None, 5, 6), (5, 6));
}

#[test]
fn test_use_item_actions() {
    let req = UseItemRequest { slot: 2, position: Some((300, 10)), direction: 1 };
    assert_eq!(decide_use_item(0, &req, 7, 5, 6), UseItemAction::ReportEmptySlot);
    assert_eq!(decide_use_item(99, &req, 7, 5, 6), UseItemAction::UnknownItem);
    assert_eq!(decide_use_item(1, &req, 7, 5, 6), UseItemAction::WarpWing { slot: 2 });
    assert_eq!(
        decide_use_item(2, &req, 7, 5, 6),
        UseItemAction::Broadcast { slot: 2, message: vec![31, 0, 2, 0, 0x2C, 0x01, 10, 0] }
    );
    assert_eq!(
        decide_use_item(4, &req, 7, 5, 6),
        UseItemAction::Broadcast { slot: 2, message: vec![31, 0, 4, 0, 0x2C, 0x01, 10, 0, 1, 5] }
    );
    assert_eq!(decide_use_item(6, &req, 7, 5, 6), UseItemAction::AddPoints { slot: 2, amount: 200 });
    assert_eq!(decide_use_item(8, &req, 7, 5, 6), UseItemAction::Reply { slot: 2, message: vec![31, 0, 8, 0] });
    assert_eq!(
        decide_use_item(15, &req, 7, 5, 6),
        UseItemAction::Broadcast { slot: 2, message: vec![31, 0, 15, 0, 7, 0] }
    );
    assert_eq!(decide_use_item(34, &req, 7, 5, 6), UseItemAction::Consume { slot: 2 });
    assert_eq!(decide_use_item(33, &req, 7, 5, 6), UseItemAction::Keep);
    assert_eq!(decide_use_item(40, &req, 7, 5, 6), UseItemAction::Keep);
}

#[test]
fn test_warp_wing() {
    assert_eq!(warp_wing_target(Some((10, 20, 30)), (1, 2, 3)), (10, 20, 30));
    assert_eq!(warp_wing_target(None, (1, 2, 3)), (1, 2, 3));
    let (own, others) = warp_wing_messages(30, 10, 20, 1, 2);
    assert_eq!(own, vec![31, 0, 1, 0, 1, 30, 0, 10, 0, 20, 0]);
    assert_eq!(others, vec![31, 0, 1, 0, 0, 1, 0, 2, 0]);
}

#[test]
fn test_discard_and_pickup() {
    assert_eq!(parse_discard(&[1, 2, 0, 3]), None);
    assert_eq!(parse_discard(&[0, 2, 0, 3, 0]), None);
    assert_eq!(parse_discard(&[1, 0x89, 0x13, 3, 0]), None);
    let req = parse_discard(&[2, 10, 0, 20, 0]).unwrap();
    assert_eq!((req.slot, req.x, req.y), (2, 10, 20));
    assert_eq!(decide_discard(&req, &[0, 25, 0, 0, 0, 0, 0, 0, 0]), Some(25));
    assert_eq!(decide_discard(&req, &[0, 48, 0, 0, 0, 0, 0, 0, 0]), None);
    assert_eq!(decide_discard(&req, &[0; 9]), None);

    let on_ground = vec![ground(4, 25), ground(9, 12)];
    assert_eq!(
        decide_pickup(&on_ground, 9, &[1, 0, 0, 0, 0, 0, 0, 0, 0]),
        PickupOutcome::Take { db_id: 9, slot: 2, item_id: 12 }
    );
    assert_eq!(decide_pickup(&on_ground, 5, &[0; 9]), PickupOutcome::Nothing);
    assert_eq!(decide_pickup(&on_ground, 4, &[1; 9]), PickupOutcome::Nothing);
    assert_eq!(build_discard_message(10, 20, 25, 4), vec![39, 0, 10, 0, 20, 0, 25, 0, 4, 0]);
}

#[test]
fn test_cannons() {
    assert_eq!(build_cannon_enter(&[1], 7), None);
    assert_eq!(build_cannon_enter(&[1, 45, 99], 7), Some(vec![98, 0, 7, 0, 1, 45]));
    assert_eq!(parse_cannon_shot(&[1, 2, 3, 4, 0, 5]), None);
    let shot = parse_cannon_shot(&[1, 2, 3, 0x2C, 0x01, 5, 0]).unwrap();
    assert_eq!(shot, CannonShot { cannon_id: 1, angle: 2, power: 3, x: 300, y: 5 });
    assert_eq!(build_cannon_shoot(&shot, 7), vec![101, 0, 1, 2, 3, 7, 0, 0x2C, 0x01, 5, 0]);
}

#[test]
fn test_race_finish() {
    let mut s = session();
    s.start_race(1, 1_000);
    for room in [91u16, 92, 94, 94, 95, 95, 97, 97, 98, 99, 100, 101, 102, 103] {
        s.room_id = room;
        assert!(s.record_checkpoint());
    }
    assert_eq!(s.finish_race(2, 5_000), RaceEnd::Ignored);
    assert_eq!(s.finish_race(1, 61_500), RaceEnd::Finished { time_ms: 60_500 });
    assert!(s.race_id.is_none());
    assert!(!s.record_checkpoint());
}

#[test]
fn test_race_with_wrong_checkpoints_is_invalid() {
    let mut s = session();
    s.start_race(1, 0);
    s.room_id = 91;
    s.record_checkpoint();
    assert_eq!(s.finish_race(1, 10), RaceEnd::Invalid);
    assert_eq!(s.finish_race(1, 10), RaceEnd::Ignored);
}

#[test]
fn test_platform_and_switch_messages() {
    assert_eq!(build_move_get_on(0x0102, 2, 0x0304), vec![124, 0, 2, 1, 2, 4, 3]);
    assert_eq!(build_move_get_off(7), vec![125, 0, 7, 0]);
    assert_eq!(build_switch_status(300, 4, 2), vec![116, 0, 0x2C, 0x01, 4, 2]);
}
