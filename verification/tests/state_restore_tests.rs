use std::collections::HashMap;

use slime_server::db::runtime_state::{submit_race_time, CollectibleState, MusicChangerState, RaceRecord};
use slime_server::game::{CollectibleSpawn, Room};

fn spawn(col_id: u8, secs: Option<u32>) -> CollectibleSpawn {
    CollectibleSpawn { col_id, item_id: 25, x: 1, y: 2, respawn_secs: secs }
}

fn state(spawn_id: i64, available: i64, respawn_at: Option<&str>) -> CollectibleState {
    CollectibleState {
        room_id: 1,
        spawn_id,
        available,
        respawn_at: respawn_at.map(|s| s.to_string()),
        current_item_id: None,
    }
}

fn music(cooldown: Option<&str>) -> MusicChangerState {
    MusicChangerState {
        current_day_music: 1,
        current_night_music: 2,
        day_track_1: 1,
        day_track_2: 2,
        day_track_3: 3,
        day_track_3_unlocked: false,
        night_track_1: 4,
        night_track_2: 5,
        night_track_3: 6,
        night_track_3_unlocked: false,
        cooldown_until: cooldown.map(|s| s.to_string()),
    }
}

#[test]
fn test_restore_collectible_states() {
    let mut states = HashMap::new();
    // Taken, coming back far in the future: restored as taken.
    states.insert(0u8, state(0, 0, Some("2999-01-01T00:00:00Z")));
    // Taken, but the respawn time has passed: there.
    states.insert(1u8, state(1, 0, Some("2000-01-01T00:00:00+00:00")));
    // Taken, with an unreadable time: there.
    states.insert(2u8, state(2, 0, Some("not a time")));
    // Available.
    states.insert(3u8, state(3, 1, None));
    let mut room = Room::new(1);
    let now = 1_000_000;
    room.init_collectibles_with_state(
        vec![spawn(0, Some(600)), spawn(1, Some(600)), spawn(2, Some(600)), spawn(3, Some(600)), spawn(4, None)],
        &states,
        now,
    );
    let mut available: Vec<u8> = room.get_available_collectibles(now).iter().map(|c| c.spawn.col_id).collect();
    available.sort();
    assert_eq!(available, vec![1, 2, 3, 4]);
    assert_eq!(room.take_collectible(0, now), None);
}

#[test]
fn test_music_cooldown() {
    assert!(music(Some("2999-01-01T00:00:00Z")).is_on_cooldown());
    assert!(!music(Some("2000-01-01T00:00:00Z")).is_on_cooldown());
    assert!(!music(Some("tomorrow")).is_on_cooldown());
    assert!(!music(None).is_on_cooldown());
}

fn board(times: &[u32]) -> Vec<RaceRecord> {
    times.iter().enumerate().map(|(i, t)| RaceRecord { name: format!("p{}", i), time_ms: *t }).collect()
}

#[test]
fn test_race_board_insert_shifts_down() {
    let mut b = board(&[100, 200, 300]);
    assert_eq!(submit_race_time(&mut b, "new".to_string(), 250), Some(3));
    let times: Vec<u32> = b.iter().map(|r| r.time_ms).collect();
    assert_eq!(times, vec![100, 200, 250, 300]);
    assert_eq!(b[2].name, "new");
    assert_eq!(b[3].name, "p2");
    // Only strictly faster times count: a tie goes before the equal time.
    assert_eq!(submit_race_time(&mut b, "tie".to_string(), 200), Some(2));
    assert_eq!(b[1].name, "tie");
    assert_eq!(b[2].name, "p1");
}

#[test]
fn test_race_board_keeps_ten() {
    let mut b = board(&[10, 20, 30, 40, 50, 60, 70, 80, 90, 100]);
    assert_eq!(submit_race_time(&mut b, "slow".to_string(), 100), None);
    assert_eq!(b.len(), 10);
    assert_eq!(b[9].time_ms, 100);
    assert_eq!(submit_race_time(&mut b, "fast".to_string(), 5), Some(1));
    assert_eq!(b.len(), 10);
    assert_eq!(b[0].name, "fast");
    assert_eq!(b[9].time_ms, 90);
    // Any time counts while the board has fewer than ten entries.
    let mut short = board(&[10]);
    assert_eq!(submit_race_time(&mut short, "late".to_string(), 5000), Some(2));
}
