use slime_server::config::DefaultsConfig;
use slime_server::game::{CollectibleSpawn, PlayerSession, Room};

fn defaults() -> DefaultsConfig {
    DefaultsConfig {
        spawn_x: 385,
        spawn_y: 71,
        spawn_room: 32,
        outfit: 1,
        accessory1: 2,
        accessory2: 3,
        signature: 0,
        signature_bg: 0,
        emotes: [1, 2, 3, 4, 5],
        starting_items: [0; 9],
        starting_outfits: [0; 9],
        starting_accessories: [0; 9],
        starting_tools: [0; 9],
        unlocked_mail_paper: vec![],
    }
}

fn spawn(col_id: u8, item_id: u16, respawn_secs: Option<u32>) -> CollectibleSpawn {
    CollectibleSpawn { col_id, item_id, x: 10, y: 20, respawn_secs }
}

#[test]
fn test_room_players() {
    let mut room = Room::new(5);
    assert_eq!(room.player_count(), 0);
    room.add_player(1);
    room.add_player(2);
    room.add_player(1);
    assert_eq!(room.player_count(), 2);
    let mut players = room.get_players();
    players.sort();
    assert_eq!(players, vec![1, 2]);
    room.remove_player(1);
    assert_eq!(room.get_players(), vec![2]);
}

#[test]
fn test_collectible_take_and_respawn() {
    let mut room = Room::new(1);
    room.init_collectibles(vec![spawn(0, 25, Some(60)), spawn(1, 26, None)]);
    assert_eq!(room.get_available_collectibles(0).len(), 2);

    assert_eq!(room.take_collectible(0, 1_000), Some(spawn(0, 25, Some(60))));
    // Taken: cannot be taken again until 60 whole seconds have passed.
    assert_eq!(room.take_collectible(0, 2_000), None);
    assert_eq!(room.get_available_collectibles(60_999).len(), 1);
    let back = room.get_available_collectibles(61_000);
    assert_eq!(back.len(), 2);
    assert!(back.iter().all(|c| c.taken_at.is_none()));

    // One that never respawns stays gone.
    assert_eq!(room.take_collectible(1, 100_000), Some(spawn(1, 26, None)));
    assert_eq!(room.take_collectible(1, 10_000_000), None);
    // Unknown ids are refused.
    assert_eq!(room.take_collectible(9, 10_000_000), None);
}

#[test]
fn test_session_defaults() {
    let s = PlayerSession::new("127.0.0.1".to_string(), &defaults(), 5_000);
    assert_eq!((s.room_id, s.x, s.y), (32, 385, 71));
    assert_eq!((s.body_id, s.acs1_id, s.acs2_id), (1, 2, 3));
    assert_eq!(s.points, 0);
    assert!(!s.is_authenticated);
    assert!(!s.has_pending_messages());
}

#[test]
fn test_session_ids_are_random_v4() {
    let a = PlayerSession::new("a".to_string(), &defaults(), 0);
    let b = PlayerSession::new("b".to_string(), &defaults(), 0);
    assert_ne!(a.session_id, b.session_id);
    // Version 4, RFC 4122 variant.
    assert_eq!((a.session_id >> 76) & 0xF, 4);
    assert_eq!((a.session_id >> 62) & 0x3, 2);
}

#[test]
fn test_message_queue_is_fifo() {
    let mut s = PlayerSession::new("x".to_string(), &defaults(), 0);
    s.queue_message(vec![1]);
    s.queue_message(vec![2, 2]);
    s.queue_message(vec![3]);
    assert!(s.has_pending_messages());
    assert_eq!(s.drain_messages(), vec![vec![1], vec![2, 2], vec![3]]);
    assert!(!s.has_pending_messages());
    assert!(s.drain_messages().is_empty());
}

#[test]
fn test_session_timeouts() {
    let mut s = PlayerSession::new("x".to_string(), &defaults(), 0);
    assert_eq!(s.seconds_since_activity(29_999), 29);
    assert!(!s.is_timed_out(30_999));
    assert!(s.is_timed_out(31_000));
    s.is_authenticated = true;
    assert!(!s.is_timed_out(300_999));
    assert!(s.is_timed_out(301_000));
    s.update_activity(301_000);
    assert!(!s.is_timed_out(301_000));
    assert_eq!(s.seconds_since_activity(0), 0);
}

#[test]
fn test_kick() {
    let mut s = PlayerSession::new("x".to_string(), &defaults(), 0);
    s.queue_message(vec![9]);
    s.kick("bye".to_string());
    assert!(s.should_disconnect);
    assert_eq!(s.disconnect_reason, Some("bye".to_string()));
    assert!(s.has_pending_messages());
}
