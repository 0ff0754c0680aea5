use slime_server::anticheat::hack_tracker::{hack_log_file_name, hack_response};
use slime_server::anticheat::movement::{
    distance_sq, validate_movement_delta, validate_position_bounds, FindingKind, MovementChecker,
};
use slime_server::anticheat::types::{CheatResult, HackResponse, HackType};
use slime_server::anticheat::AntiCheat;

const SEC: u64 = 1_000_000_000;

#[test]
fn test_movement_validation() {
    // Normal movement
    assert!(validate_movement_delta(100, 100, 110, 100, 100));

    // Too fast
    assert!(!validate_movement_delta(100, 100, 1000, 100, 10));

    // Long time = more distance allowed
    assert!(validate_movement_delta(100, 100, 600, 100, 2000));
}

#[test]
fn test_position_bounds() {
    assert!(validate_position_bounds(100, 100));
    assert!(validate_position_bounds(3000, 1000));
    assert!(!validate_position_bounds(60000, 100));
}

#[test]
fn test_hack_type_display() {
    assert_eq!(HackType::InsufficientFunds.to_string(), "InsufficientFunds");
    assert_eq!(HackType::SpeedHack.to_string(), "SpeedHack");
}

#[test]
fn test_hack_response_should_disconnect() {
    assert!(!HackResponse::Logged.should_disconnect());
    assert!(!HackResponse::Warning { hack_count: 1, max_hacks: 8 }.should_disconnect());
    assert!(HackResponse::Kick { reason: "test".to_string() }.should_disconnect());
    assert!(HackResponse::Ban { reason: "test".to_string() }.should_disconnect());
}

#[test]
fn test_normal_movement() {
    let mut ac = AntiCheat::new();
    ac.init_player(1, 100, 100, 1, 0);
    let result = ac.check_movement(1, 110, 100, 1, 0);
    assert!(result.is_clean());
}

#[test]
fn test_teleport_detection() {
    let mut ac = AntiCheat::new();
    ac.init_player(1, 100, 100, 1, 0);
    let result = ac.check_movement(1, 5000, 100, 1, 0);
    assert!(!result.is_clean());
    match result {
        CheatResult::Suspicious { reason, severity } => {
            assert_eq!(reason.kind, FindingKind::Teleport);
            assert_eq!(reason.distance_sq, 4900 * 4900);
            assert_eq!(severity, 3);
        }
        _ => panic!("expected a suspicious result"),
    }
}

#[test]
fn test_legitimate_warp() {
    let mut ac = AntiCheat::new();
    ac.init_player(1, 100, 100, 1, 0);
    ac.allow_warp(1);
    let result = ac.check_movement(1, 5000, 100, 1, 0);
    assert!(result.is_clean());
}

#[test]
fn test_room_change() {
    let mut ac = AntiCheat::new();
    ac.init_player(1, 100, 100, 1, 0);
    let result = ac.check_movement(1, 500, 200, 2, 0);
    assert!(result.is_clean());
}

#[test]
fn test_speed_hack_detection() {
    let mut checker = MovementChecker::new();
    checker.init_player(7, 0, 0, 1, 0);
    // 400 pixels in 0.5 s is 800 px/s: above twice the top speed, below
    // the teleport distance.
    let result = checker.check_movement(7, 400, 0, 1, SEC / 2);
    match result {
        CheatResult::Suspicious { reason, severity } => {
            assert_eq!(reason.kind, FindingKind::SpeedHack);
            assert_eq!(severity, 2);
        }
        _ => panic!("expected a speed hack"),
    }
    // 100 pixels in a second is fine.
    let result = checker.check_movement(7, 100, 0, 1, SEC);
    assert!(result.is_clean());
}

#[test]
fn test_fifth_violation_is_cheating() {
    let mut checker = MovementChecker::new();
    checker.init_player(3, 0, 0, 1, 0);
    for i in 0..4u64 {
        let r = checker.check_movement(3, 4000, 0, 1, i);
        assert!(matches!(r, CheatResult::Suspicious { .. }));
    }
    let r = checker.check_movement(3, 4000, 0, 1, 4);
    assert!(r.is_cheating());
}

#[test]
fn test_old_violations_leave_the_window() {
    let mut checker = MovementChecker::new();
    checker.init_player(3, 0, 0, 1, 0);
    for i in 0..4u64 {
        let r = checker.check_movement(3, 4000, 0, 1, i);
        assert!(matches!(r, CheatResult::Suspicious { .. }));
    }
    // A minute later the first four are gone: a fifth violation (40000
    // pixels in 61 s, a speed hack) is only suspicious.
    let r = checker.check_movement(3, 40000, 0, 1, 61 * SEC);
    match r {
        CheatResult::Suspicious { reason, .. } => assert_eq!(reason.kind, FindingKind::SpeedHack),
        _ => panic!("expected a suspicious result"),
    }
}

#[test]
fn test_untracked_player_is_clean() {
    let mut checker = MovementChecker::new();
    assert!(checker.check_movement(9, 4000, 0, 1, 0).is_clean());
    assert_eq!(checker.tracked_count(), 1);
    checker.remove_player(9);
    assert_eq!(checker.tracked_count(), 0);
}

#[test]
fn test_distance_sq() {
    assert_eq!(distance_sq(0, 0, 3, 4), 25);
    assert_eq!(distance_sq(10, 10, 7, 6), 25);
    assert_eq!(distance_sq(0, 0, 65535, 65535), 2 * 65535u64 * 65535);
}

#[test]
fn test_movement_delta_lag_allowance() {
    // 50 pixels are always allowed.
    assert!(validate_movement_delta(0, 0, 30, 40, 0));
    assert!(!validate_movement_delta(0, 0, 51, 0, 0));
    // 0.6 px per ms.
    assert!(validate_movement_delta(0, 0, 600, 0, 1000));
    assert!(!validate_movement_delta(0, 0, 601, 0, 1000));
}

#[test]
fn test_position_bounds_edges() {
    assert!(validate_position_bounds(5000, 3000));
    assert!(!validate_position_bounds(5001, 3000));
    assert!(!validate_position_bounds(5000, 3001));
}

#[test]
fn test_flags_kick_and_ban() {
    let mut ac = AntiCheat::new();
    assert_eq!(ac.get_flags(5), 0);
    for _ in 0..3 {
        ac.flag_player(5);
    }
    assert_eq!(ac.get_flags(5), 3);
    assert!(ac.should_kick(5));
    assert!(!ac.should_ban(5));
    for _ in 0..7 {
        ac.flag_player(5);
    }
    assert!(ac.should_ban(5));
    assert_eq!(ac.get_flags(6), 0);
    ac.remove_player(5);
    assert_eq!(ac.get_flags(5), 0);
}

#[test]
fn test_hack_response_levels() {
    assert_eq!(hack_response(1, 8, HackType::SpeedHack), HackResponse::Logged);
    assert_eq!(hack_response(3, 8, HackType::SpeedHack), HackResponse::Logged);
    assert_eq!(
        hack_response(4, 8, HackType::SpeedHack),
        HackResponse::Warning { hack_count: 4, max_hacks: 8 }
    );
    assert_eq!(
        hack_response(8, 8, HackType::InvalidSlot),
        HackResponse::Ban { reason: "Maximum hack attempts reached (8/8). Last: InvalidSlot".to_string() }
    );
    assert!(hack_response(9, 8, HackType::InvalidSlot).is_ban());
}

#[test]
fn test_hack_type_details() {
    assert_eq!(HackType::ProtocolViolation.severity(), 5);
    assert_eq!(HackType::InvalidSlot.severity(), 1);
    assert_eq!(HackType::SpeedHack.description(), "Movement speed exceeds maximum");
}

#[test]
fn test_hack_log_file_name() {
    assert_eq!(hack_log_file_name("2024-01-02"), "[Hacks]2024-01-02.txt");
}

#[test]
fn test_warp_is_used_once() {
    let mut ac = AntiCheat::new();
    ac.init_player(1, 100, 100, 1, 0);
    ac.allow_warp(1);
    assert!(ac.check_movement(1, 4000, 100, 1, 0).is_clean());
    // The next jump is checked again.
    assert!(!ac.check_movement(1, 100, 100, 1, 0).is_clean());
}

#[test]
fn test_init_player_starts_clean_history() {
    let mut ac = AntiCheat::new();
    ac.init_player(1, 100, 100, 1, 0);
    // Two refused moves leave violations behind.
    ac.check_movement(1, 5000, 100, 1, 0);
    ac.check_movement(1, 9000, 100, 1, 0);
    assert_eq!(ac.movement.players.get(&1).unwrap().violations.len(), 2);
    // Starting over forgets them, and the first teleport is only suspicious.
    ac.init_player(1, 100, 100, 1, 0);
    let h = ac.movement.players.get(&1).unwrap();
    assert!(h.violations.is_empty());
    assert_eq!(h.last_warp, None);
    assert!(!h.is_warping);
    let result = ac.check_movement(1, 5000, 100, 1, 0);
    assert!(matches!(result, CheatResult::Suspicious { severity: 3, .. }));
    assert_eq!(ac.get_flags(1), 0);
}

#[test]
fn test_refused_move_records_one_violation_and_keeps_positions() {
    let mut ac = AntiCheat::new();
    ac.init_player(7, 100, 100, 1, 0);
    let before = ac.movement.players.get(&7).unwrap().positions.clone();
    // 400 pixels in half a second: a speed hack, not a teleport.
    let result = ac.check_movement(7, 500, 100, 1, SEC / 2);
    match result {
        CheatResult::Suspicious { reason, severity } => {
            assert_eq!(reason.kind, FindingKind::SpeedHack);
            assert_eq!(severity, 2);
        }
        _ => panic!("expected a suspicious result"),
    }
    let h = ac.movement.players.get(&7).unwrap();
    assert_eq!(h.positions, before);
    assert_eq!(h.violations.len(), 1);
    assert_eq!(h.violations[0].0, SEC / 2);
    // A clean move appends its position and leaves the violations.
    let clean = ac.check_movement(7, 110, 100, 1, SEC);
    assert!(clean.is_clean());
    let h = ac.movement.players.get(&7).unwrap();
    assert_eq!(h.positions.len(), 2);
    assert_eq!(h.violations.len(), 1);
}

#[test]
fn test_fifth_violation_in_window_is_cheating() {
    let mut ac = AntiCheat::new();
    ac.init_player(3, 100, 100, 1, 0);
    for i in 0..4u64 {
        let r = ac.check_movement(3, 5000, 100, 1, i);
        assert!(matches!(r, CheatResult::Suspicious { .. }));
    }
    let r = ac.check_movement(3, 5000, 100, 1, 4);
    assert!(r.is_cheating());
    assert_eq!(ac.get_flags(3), 1);
}
