use slime_server::config::DefaultsConfig;
use slime_server::game::PlayerSession;
use slime_server::handlers::connection::{
    build_ping, build_ping_req_reply, build_player_stop, player_stop, route_message, tool_to_unequip, MessageKind,
    Route,
};
use slime_server::handlers::items::tool_to_equip;

#[test]
fn test_route_fixed_kinds() {
    assert_eq!(route_message(MessageKind::Ping, &[]), Route::ReplyPing);
    assert_eq!(route_message(MessageKind::PingReq, &[1, 2]), Route::ReplyPingReq);
    assert_eq!(route_message(MessageKind::Login, &[9]), Route::Login);
    assert_eq!(route_message(MessageKind::Logout, &[]), Route::Logout);
    assert_eq!(route_message(MessageKind::DiscardedItemTake, &[]), Route::TakeDroppedItem);
    assert_eq!(route_message(MessageKind::Point, &[]), Route::PointCollection);
    assert_eq!(route_message(MessageKind::ToolUnequip, &[]), Route::ToolUnequip);
    assert_eq!(route_message(MessageKind::Other, &[1, 2, 3]), Route::Unhandled);
}

#[test]
fn test_route_player_stop() {
    assert_eq!(
        route_message(MessageKind::PlayerStop, &[0x2C, 0x01, 0x90, 0x01]),
        Route::PlayerStop { x: 300, y: 400 }
    );
    assert_eq!(route_message(MessageKind::PlayerStop, &[0x2C, 0x01, 0x90]), Route::Ignore);
    assert_eq!(route_message(MessageKind::PlayerStop, &[]), Route::Ignore);
}

#[test]
fn test_route_tool_equip() {
    assert_eq!(route_message(MessageKind::ToolEquip, &[3]), Route::ToolEquip { slot: 3 });
    assert_eq!(route_message(MessageKind::ToolEquip, &[]), Route::Ignore);
    let tools = [0u8, 0, 17, 0, 0, 0, 0, 0, 0];
    assert_eq!(tool_to_equip(3, &tools), Some(3));
    assert_eq!(tool_to_equip(2, &tools), None);
    assert_eq!(tool_to_equip(10, &tools), None);
}

#[test]
fn test_ping_replies() {
    assert_eq!(build_ping(0x0102), vec![0x02, 0x01]);
    assert_eq!(build_ping_req_reply(77), vec![77, 0]);
}

#[test]
fn test_build_player_stop() {
    assert_eq!(build_player_stop(0x0A0B, 5, 300, 400), vec![0x0B, 0x0A, 5, 0, 0x2C, 0x01, 0x90, 0x01]);
}

fn session() -> PlayerSession {
    let d = DefaultsConfig {
        spawn_x: 1,
        spawn_y: 2,
        spawn_room: 91,
        outfit: 0,
        accessory1: 0,
        accessory2: 0,
        signature: 0,
        signature_bg: 0,
        emotes: [0; 5],
        starting_items: [0; 9],
        starting_outfits: [0; 9],
        starting_accessories: [0; 9],
        starting_tools: [0; 9],
        unlocked_mail_paper: vec![],
    };
    PlayerSession::new("1.2.3.4".to_string(), &d, 0)
}

#[test]
fn test_player_stop() {
    let room = vec![4u16, 5, 6];
    let mut s = session();
    assert!(player_stop(&mut s, &room, 9, 300, 400).is_none());
    assert_eq!((s.x, s.y), (1, 2));
    s.player_id = Some(5);
    let relay = player_stop(&mut s, &room, 9, 300, 400).unwrap();
    assert_eq!((s.x, s.y), (300, 400));
    assert_eq!(relay.recipients, vec![4, 6]);
    assert_eq!(relay.message, build_player_stop(9, 5, 300, 400));
    let alone = player_stop(&mut s, &vec![5], 9, 1, 2).unwrap();
    assert!(alone.recipients.is_empty());
}

#[test]
fn test_tool_unequip() {
    assert_eq!(tool_to_unequip(Some(12)), Some(0));
    assert_eq!(tool_to_unequip(None), None);
}
