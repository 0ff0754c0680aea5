use slime_server::config::{ClanCreationConfig, ClanLimitsConfig};
use slime_server::handlers::clan::{
    build_clan_create_error, build_clan_info_broadcast, build_clan_info_left, build_clan_info_self,
    clan_name_length_ok, decide_clan_create, ClanCreateOutcome,
};

fn limits() -> ClanLimitsConfig {
    ClanLimitsConfig {
        min_name_length: 3,
        max_name_length: 8,
        initial_member_slots: 5,
        max_member_slots: 20,
        base_unlock_cost: 1000,
    }
}

fn creation() -> ClanCreationConfig {
    ClanCreationConfig { cost: 100, required_items: vec![51, 52, 51] }
}

#[test]
fn test_clan_name_length() {
    assert!(clan_name_length_ok("abc", &limits()));
    assert!(clan_name_length_ok("abcdefgh", &limits()));
    assert!(!clan_name_length_ok("ab", &limits()));
    assert!(!clan_name_length_ok("abcdefghi", &limits()));
    // Lengths are counted in bytes.
    assert!(!clan_name_length_ok("ééééé", &limits()));
}

#[test]
fn test_clan_create_takes_items() {
    let items = [51, 0, 52, 51, 51, 0, 0, 0, 0];
    match decide_clan_create(false, "Slimes", false, 150, &creation(), &limits(), &items) {
        ClanCreateOutcome::Create { new_points, slots } => {
            assert_eq!(new_points, 50);
            assert_eq!(slots, vec![0, 2, 3]);
        }
        other => panic!("expected a clan, got {:?}", other),
    }
}

#[test]
fn test_clan_create_refusals() {
    let items = [51, 0, 52, 51, 0, 0, 0, 0, 0];
    assert_eq!(decide_clan_create(true, "Slimes", false, 150, &creation(), &limits(), &items), ClanCreateOutcome::Ignored);
    assert_eq!(decide_clan_create(false, "S", false, 150, &creation(), &limits(), &items), ClanCreateOutcome::NameError);
    assert_eq!(decide_clan_create(false, "Slimes", true, 150, &creation(), &limits(), &items), ClanCreateOutcome::NameError);
    assert_eq!(decide_clan_create(false, "Slimes", false, 99, &creation(), &limits(), &items), ClanCreateOutcome::Ignored);
    let missing = [51, 0, 52, 0, 0, 0, 0, 0, 0];
    assert_eq!(decide_clan_create(false, "Slimes", false, 150, &creation(), &limits(), &missing), ClanCreateOutcome::Ignored);
}

#[test]
fn test_clan_messages() {
    assert_eq!(build_clan_create_error(1), vec![126, 0, 1]);
    assert_eq!(build_clan_info_left(), vec![130, 0, 6]);
    assert_eq!(build_clan_info_self(0x10005, true, false), vec![130, 0, 1, 5, 0, 1, 0]);
    assert_eq!(build_clan_info_broadcast(3, 5), vec![130, 0, 2, 3, 0, 5, 0]);
}
